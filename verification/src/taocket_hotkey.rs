//! Global hotkeys: their textual form, the bindings that are registered, and
//! which binding an activation stands for.
use crate::text::chars_of;
use std::collections::HashMap;
use vstd::prelude::*;
use vstd::string::{StrSliceExecFns, StringExecFns};

verus! {

broadcast use vstd::std_specs::hash::group_hash_axioms;

/// The edge of a hotkey activation.
#[derive(Debug, Clone, Copy, PartialEq, Eq, Structural)]
pub enum HotkeyState {
    Pressed,
    Released,
}

/// One activation as the hotkey source reports it.
#[derive(Debug, Clone, Copy, PartialEq, Eq, Structural)]
pub struct HotkeyActivation {
    pub id: u32,
    pub state: HotkeyState,
}

/// A registered hotkey: the identifier under which the hotkey source reports
/// it, the key combination as it was written, and the name of the function
/// bound to it. A binding does not change once it is registered.
#[derive(Debug, PartialEq, Eq)]
pub struct HotkeyBinding {
    pub id: u32,
    pub key: String,
    pub func: String,
}

/// The mathematical content of a [`HotkeyBinding`].
pub struct HotkeyBindingView {
    pub id: u32,
    pub key: Seq<char>,
    pub func: Seq<char>,
}

impl View for HotkeyBinding {
    type V = HotkeyBindingView;

    open spec fn view(&self) -> HotkeyBindingView {
        HotkeyBindingView { id: self.id, key: self.key@, func: self.func@ }
    }
}

impl Clone for HotkeyBinding {
    fn clone(&self) -> (copy: Self)
        ensures
            copy == *self,
    {
        HotkeyBinding { id: self.id, key: self.key.clone(), func: self.func.clone() }
    }
}

/// The binding that an activation stands for: that of its identifier, on the
/// release edge only.
pub open spec fn resolved(
    table: Map<u32, HotkeyBinding>,
    activation: HotkeyActivation,
) -> Option<HotkeyBinding> {
    if activation.state == HotkeyState::Released && table.contains_key(activation.id) {
        Some(table[activation.id])
    } else {
        None
    }
}

/// The registered hotkeys, by identifier.
pub struct HotkeyTable {
    bindings: HashMap<u32, HotkeyBinding>,
}

impl View for HotkeyTable {
    type V = Map<u32, HotkeyBinding>;

    closed spec fn view(&self) -> Map<u32, HotkeyBinding> {
        self.bindings@
    }
}

impl HotkeyTable {
    /// Every binding is held under its own identifier.
    #[verifier::type_invariant]
    spec fn wf(&self) -> bool {
        forall|id: u32| #[trigger] self.bindings@.contains_key(id) ==> self.bindings@[id].id == id
    }

    pub fn new() -> (table: Self)
        ensures
            table@ == Map::<u32, HotkeyBinding>::empty(),
    {
        HotkeyTable { bindings: HashMap::new() }
    }

    /// Registers a binding, unless one is already held under its identifier:
    /// the table is then left as it is.
    pub fn register(&mut self, binding: HotkeyBinding) -> (registered: bool)
        ensures
            registered == !old(self)@.contains_key(binding.id),
            registered ==> final(self)@ == old(self)@.insert(binding.id, binding),
            !registered ==> final(self)@ == old(self)@,
    {
        proof {
            use_type_invariant(&*self);
        }
        if self.bindings.contains_key(&binding.id) {
            false
        } else {
            let mut bindings = HashMap::new();
            core::mem::swap(&mut self.bindings, &mut bindings);
            bindings.insert(binding.id, binding);
            self.bindings = bindings;
            true
        }
    }

    pub fn len(&self) -> (count: usize)
        ensures
            count == self@.len(),
    {
        self.bindings.len()
    }

    /// The binding held under `id`.
    pub fn get(&self, id: u32) -> (binding: Option<&HotkeyBinding>)
        ensures
            binding == (if self@.contains_key(id) {
                Some(&self@[id])
            } else {
                None
            }),
            binding matches Some(b) ==> b.id == id,
    {
        proof {
            use_type_invariant(self);
        }
        self.bindings.get(&id)
    }

    /// The binding that `activation` stands for, if it stands for one.
    pub fn resolve(&self, activation: HotkeyActivation) -> (binding: Option<&HotkeyBinding>)
        ensures
            binding == (match resolved(self@, activation) {
                Some(b) => Some(&b),
                None => None,
            }),
            binding matches Some(b) ==> b.id == activation.id,
    {
        match activation.state {
            HotkeyState::Released => self.get(activation.id),
            HotkeyState::Pressed => None,
        }
    }
}

/// A hotkey as a client describes it.
#[derive(Debug, Clone)]
pub struct HotkeyInfo {
    pub id: String,
    pub key: String,
    pub hotkey_id: u32,
}

/// The answer to a request to register a hotkey.
#[derive(Debug, Clone)]
pub enum HotkeyResponse {
    Registered { key: String },
    Failed { err: String },
}

/// Why a hotkey could not be set up.
#[derive(Debug, Clone)]
pub enum HotkeyError {
    /// The hotkey source could not be started.
    InitializationFailed(String),
    /// The text is no key combination.
    InvalidKeyFormat(String),
    /// The text names a key that does not exist.
    UnknownKey(String),
}

/// The mathematical content of a [`HotkeyError`].
pub enum HotkeyErrorView {
    InitializationFailed(Seq<char>),
    InvalidKeyFormat(Seq<char>),
    UnknownKey(Seq<char>),
}

impl View for HotkeyError {
    type V = HotkeyErrorView;

    open spec fn view(&self) -> HotkeyErrorView {
        match self {
            HotkeyError::InitializationFailed(text) => HotkeyErrorView::InitializationFailed(text@),
            HotkeyError::InvalidKeyFormat(text) => HotkeyErrorView::InvalidKeyFormat(text@),
            HotkeyError::UnknownKey(text) => HotkeyErrorView::UnknownKey(text@),
        }
    }
}

/// The sentence that describes an error.
pub open spec fn described(error: HotkeyErrorView) -> Seq<char> {
    match error {
        HotkeyErrorView::InitializationFailed(text) => "Failed to initialize hotkey manager: "@
            + text,
        HotkeyErrorView::InvalidKeyFormat(text) => "Invalid key format: "@ + text,
        HotkeyErrorView::UnknownKey(text) => "Unknown key: "@ + text,
    }
}

impl HotkeyError {
    /// The sentence that describes this error.
    pub fn message(&self) -> (sentence: String)
        ensures
            sentence@ == described(self@),
    {
        match self {
            HotkeyError::InitializationFailed(text) => String::from_str(
                "Failed to initialize hotkey manager: ",
            ).concat(text.as_str()),
            HotkeyError::InvalidKeyFormat(text) => String::from_str("Invalid key format: ").concat(
                text.as_str(),
            ),
            HotkeyError::UnknownKey(text) => String::from_str("Unknown key: ").concat(text.as_str()),
        }
    }
}

/// A key of the keyboard, by its position.
#[derive(Debug, Clone, Copy, PartialEq, Eq, Hash, Structural)]
pub enum KeyCode {
    Backquote,
    Backslash,
    BracketLeft,
    BracketRight,
    Pause,
    Comma,
    Digit0,
    Digit1,
    Digit2,
    Digit3,
    Digit4,
    Digit5,
    Digit6,
    Digit7,
    Digit8,
    Digit9,
    Equal,
    KeyA,
    KeyB,
    KeyC,
    KeyD,
    KeyE,
    KeyF,
    KeyG,
    KeyH,
    KeyI,
    KeyJ,
    KeyK,
    KeyL,
    KeyM,
    KeyN,
    KeyO,
    KeyP,
    KeyQ,
    KeyR,
    KeyS,
    KeyT,
    KeyU,
    KeyV,
    KeyW,
    KeyX,
    KeyY,
    KeyZ,
    Minus,
    Period,
    Quote,
    Semicolon,
    Slash,
    Backspace,
    CapsLock,
    Enter,
    Space,
    Tab,
    Delete,
    End,
    Home,
    Insert,
    PageDown,
    PageUp,
    PrintScreen,
    ScrollLock,
    ArrowDown,
    ArrowLeft,
    ArrowRight,
    ArrowUp,
    NumLock,
    Numpad0,
    Numpad1,
    Numpad2,
    Numpad3,
    Numpad4,
    Numpad5,
    Numpad6,
    Numpad7,
    Numpad8,
    Numpad9,
    NumpadAdd,
    NumpadDecimal,
    NumpadDivide,
    NumpadEnter,
    NumpadEqual,
    NumpadMultiply,
    NumpadSubtract,
    Escape,
    F1,
    F2,
    F3,
    F4,
    F5,
    F6,
    F7,
    F8,
    F9,
    F10,
    F11,
    F12,
    AudioVolumeDown,
    AudioVolumeUp,
    AudioVolumeMute,
    MediaPlay,
    MediaPause,
    MediaPlayPause,
    MediaStop,
    MediaTrackNext,
    MediaTrackPrevious,
    F13,
    F14,
    F15,
    F16,
    F17,
    F18,
    F19,
    F20,
    F21,
    F22,
    F23,
    F24,
}

/// The modifier keys of a key combination.
#[derive(Debug, Clone, Copy, PartialEq, Eq, Hash, Structural)]
pub struct Modifiers {
    pub control: bool,
    pub shift: bool,
    pub alt: bool,
    pub meta: bool,
}

/// A key together with the modifiers held while it is struck.
#[derive(Debug, Clone, Copy, PartialEq, Eq, Hash, Structural)]
pub struct KeyCombination {
    pub modifiers: Modifiers,
    pub code: KeyCode,
}

/// What `str::to_uppercase` returns for a text.
pub uninterp spec fn uppercase(text: Seq<char>) -> Seq<char>;

/// What `str::to_lowercase` returns for a text.
pub uninterp spec fn lowercase(text: Seq<char>) -> Seq<char>;

/// `str::to_uppercase`: the text with every character replaced by its
/// uppercase form, as Unicode defines it. The result is a function of the
/// text alone; the contract gives it its name.
pub assume_specification[ str::to_uppercase ](text: &str) -> (upper: String)
    ensures
        upper@ == uppercase(text@),
;

/// `str::to_lowercase`: the text with every character replaced by its
/// lowercase form, as Unicode defines it. The result is a function of the
/// text alone; the contract gives it its name.
pub assume_specification[ str::to_lowercase ](text: &str) -> (lower: String)
    ensures
        lower@ == lowercase(text@),
;

/// The length of the key name at the front of a text: the characters before
/// the first `+`.
pub open spec fn key_run(text: Seq<char>) -> nat
    decreases text.len(),
{
    if text.len() == 0 || text[0] == '+' {
        0
    } else {
        1 + key_run(text.skip(1))
    }
}

/// A key name is no longer than the text it stands in, and ends at a `+` or
/// at the end.
pub proof fn lemma_key_run_bounds(text: Seq<char>)
    ensures
        key_run(text) <= text.len(),
        forall|k: int| 0 <= k < key_run(text) ==> text[k] != '+',
        key_run(text) < text.len() ==> text[key_run(text) as int] == '+',
    decreases text.len(),
{
    if !(text.len() == 0 || text[0] == '+') {
        let rest = text.skip(1);
        lemma_key_run_bounds(rest);
        assert forall|k: int| 0 <= k < key_run(text) implies text[k] != '+' by {
            if k > 0 {
                assert(text[k] == rest[k - 1]);
            }
        }
    }
}

/// The parts of a key combination written as text.
///
/// The text is a run of parts and separators. A part is a key name, which is
/// any run of characters other than `+`, as long as it can be; or the key `+`
/// itself, which is written `++`. A single `+` separates parts and stands for
/// nothing.
pub open spec fn tokens(text: Seq<char>) -> Seq<Seq<char>>
    decreases text.len(),
{
    if text.len() == 0 {
        Seq::empty()
    } else if text[0] == '+' {
        if text.len() >= 2 && text[1] == '+' {
            seq![seq!['+']] + tokens(text.skip(2))
        } else {
            tokens(text.skip(1))
        }
    } else {
        proof {
            lemma_key_run_bounds(text);
        }
        seq![text.take(key_run(text) as int)] + tokens(text.skip(key_run(text) as int))
    }
}

/// Whether a part is a key name, which is not empty and holds no `+`, or
/// the key `+` itself.
pub open spec fn is_name(part: Seq<char>) -> bool {
    part.len() > 0 && (part == seq!['+'] || forall|k: int| 0 <= k < part.len() ==> part[k] != '+')
}

/// Every part of a key combination is a key name or the key `+`.
pub proof fn lemma_tokens_are_names(text: Seq<char>)
    ensures
        forall|i: int| 0 <= i < tokens(text).len() ==> is_name(#[trigger] tokens(text)[i]),
    decreases text.len(),
{
    if text.len() > 0 {
        if text[0] == '+' {
            if text.len() >= 2 && text[1] == '+' {
                let rest = tokens(text.skip(2));
                lemma_tokens_are_names(text.skip(2));
                assert forall|i: int| 0 <= i < tokens(text).len() implies is_name(
                    #[trigger] tokens(text)[i],
                ) by {
                    if i > 0 {
                        assert(tokens(text)[i] == rest[i - 1]);
                    }
                }
            } else {
                lemma_tokens_are_names(text.skip(1));
                assert(tokens(text) == tokens(text.skip(1)));
            }
        } else {
            let n = key_run(text) as int;
            let rest = tokens(text.skip(n));
            lemma_key_run_bounds(text);
            lemma_tokens_are_names(text.skip(n));
            assert forall|i: int| 0 <= i < tokens(text).len() implies is_name(
                #[trigger] tokens(text)[i],
            ) by {
                if i > 0 {
                    assert(tokens(text)[i] == rest[i - 1]);
                } else {
                    assert(tokens(text)[0] == text.take(n));
                }
            }
        }
    }
}

proof fn lemma_key_run_is(text: Seq<char>, k: int)
    requires
        0 <= k <= text.len(),
        forall|j: int| 0 <= j < k ==> text[j] != '+',
        k < text.len() ==> text[k] == '+',
    ensures
        key_run(text) == k,
    decreases k,
{
    if k > 0 {
        let rest = text.skip(1);
        assert(forall|j: int| 0 <= j < k - 1 ==> rest[j] != '+');
        lemma_key_run_is(rest, k - 1);
    }
}

/// Splits a key combination written as text into its parts.
pub fn split_key_str(shortcut: &str) -> (parts: Vec<String>)
    ensures
        parts.deep_view() == tokens(shortcut@),
{
    let chars = chars_of(shortcut);
    let n = chars.len();
    let mut parts: Vec<String> = Vec::new();
    let mut start: usize = 0;
    let mut i: usize = 0;
    assert(chars@.skip(0) == chars@);
    while i < n
        invariant
            chars@ == shortcut@,
            n == chars.len(),
            start <= i <= n,
            forall|k: int| start <= k < i ==> chars@[k] != '+',
            parts.deep_view() + tokens(chars@.skip(start as int)) == tokens(chars@),
        decreases n - i,
    {
        if chars[i] == '+' {
            let ghost text = chars@.skip(start as int);
            if start < i {
                let ghost before = parts.deep_view();
                let part = String::from_str(shortcut.substring_char(start, i));
                parts.push(part);
                proof {
                    lemma_key_run_is(text, i - start);
                    assert(text.take(i - start) == chars@.subrange(start as int, i as int));
                    assert(text.skip(i - start) == chars@.skip(i as int));
                    assert(parts.deep_view() + tokens(chars@.skip(i as int)) =~= before + tokens(
                        text,
                    ));
                }
            }
            let ghost here = chars@.skip(i as int);
            if i + 1 < n && chars[i + 1] == '+' {
                let plus = String::from_str("+");
                parts.push(plus);
                proof {
                    reveal_strlit("+");
                    assert(plus@ =~= seq!['+']);
                    assert(here.skip(2) == chars@.skip(i + 2));
                }
                i = i + 2;
            } else {
                assert(here.skip(1) == chars@.skip(i + 1));
                i = i + 1;
            }
            start = i;
        } else {
            i = i + 1;
        }
    }
    if start < n {
        let ghost text = chars@.skip(start as int);
        let part = String::from_str(shortcut.substring_char(start, n));
        parts.push(part);
        proof {
            lemma_key_run_is(text, n - start);
            assert(text.take(n - start) == chars@.subrange(start as int, n as int));
            assert(tokens(text.skip(n - start)) =~= Seq::empty());
        }
    }
    parts
}

/// The key that an uppercase name stands for. A key has its full name and,
/// mostly, a short one.
pub open spec fn key_code_of(name: Seq<char>) -> Option<KeyCode> {
    if name == "BACKQUOTE"@ || name == "`"@ {
        Some(KeyCode::Backquote)
    } else if name == "BACKSLASH"@ || name == "\\"@ {
        Some(KeyCode::Backslash)
    } else if name == "BRACKETLEFT"@ || name == "["@ {
        Some(KeyCode::BracketLeft)
    } else if name == "BRACKETRIGHT"@ || name == "]"@ {
        Some(KeyCode::BracketRight)
    } else if name == "PAUSE"@ || name == "PAUSEBREAK"@ {
        Some(KeyCode::Pause)
    } else if name == "COMMA"@ || name == ","@ {
        Some(KeyCode::Comma)
    } else if name == "DIGIT0"@ || name == "0"@ {
        Some(KeyCode::Digit0)
    } else if name == "DIGIT1"@ || name == "1"@ {
        Some(KeyCode::Digit1)
    } else if name == "DIGIT2"@ || name == "2"@ {
        Some(KeyCode::Digit2)
    } else if name == "DIGIT3"@ || name == "3"@ {
        Some(KeyCode::Digit3)
    } else if name == "DIGIT4"@ || name == "4"@ {
        Some(KeyCode::Digit4)
    } else if name == "DIGIT5"@ || name == "5"@ {
        Some(KeyCode::Digit5)
    } else if name == "DIGIT6"@ || name == "6"@ {
        Some(KeyCode::Digit6)
    } else if name == "DIGIT7"@ || name == "7"@ {
        Some(KeyCode::Digit7)
    } else if name == "DIGIT8"@ || name == "8"@ {
        Some(KeyCode::Digit8)
    } else if name == "DIGIT9"@ || name == "9"@ {
        Some(KeyCode::Digit9)
    } else if name == "EQUAL"@ || name == "="@ {
        Some(KeyCode::Equal)
    } else if name == "KEYA"@ || name == "A"@ {
        Some(KeyCode::KeyA)
    } else if name == "KEYB"@ || name == "B"@ {
        Some(KeyCode::KeyB)
    } else if name == "KEYC"@ || name == "C"@ {
        Some(KeyCode::KeyC)
    } else if name == "KEYD"@ || name == "D"@ {
        Some(KeyCode::KeyD)
    } else if name == "KEYE"@ || name == "E"@ {
        Some(KeyCode::KeyE)
    } else if name == "KEYF"@ || name == "F"@ {
        Some(KeyCode::KeyF)
    } else if name == "KEYG"@ || name == "G"@ {
        Some(KeyCode::KeyG)
    } else if name == "KEYH"@ || name == "H"@ {
        Some(KeyCode::KeyH)
    } else if name == "KEYI"@ || name == "I"@ {
        Some(KeyCode::KeyI)
    } else if name == "KEYJ"@ || name == "J"@ {
        Some(KeyCode::KeyJ)
    } else if name == "KEYK"@ || name == "K"@ {
        Some(KeyCode::KeyK)
    } else if name == "KEYL"@ || name == "L"@ {
        Some(KeyCode::KeyL)
    } else if name == "KEYM"@ || name == "M"@ {
        Some(KeyCode::KeyM)
    } else if name == "KEYN"@ || name == "N"@ {
        Some(KeyCode::KeyN)
    } else if name == "KEYO"@ || name == "O"@ {
        Some(KeyCode::KeyO)
    } else if name == "KEYP"@ || name == "P"@ {
        Some(KeyCode::KeyP)
    } else if name == "KEYQ"@ || name == "Q"@ {
        Some(KeyCode::KeyQ)
    } else if name == "KEYR"@ || name == "R"@ {
        Some(KeyCode::KeyR)
    } else if name == "KEYS"@ || name == "S"@ {
        Some(KeyCode::KeyS)
    } else if name == "KEYT"@ || name == "T"@ {
        Some(KeyCode::KeyT)
    } else if name == "KEYU"@ || name == "U"@ {
        Some(KeyCode::KeyU)
    } else if name == "KEYV"@ || name == "V"@ {
        Some(KeyCode::KeyV)
    } else if name == "KEYW"@ || name == "W"@ {
        Some(KeyCode::KeyW)
    } else if name == "KEYX"@ || name == "X"@ {
        Some(KeyCode::KeyX)
    } else if name == "KEYY"@ || name == "Y"@ {
        Some(KeyCode::KeyY)
    } else if name == "KEYZ"@ || name == "Z"@ {
        Some(KeyCode::KeyZ)
    } else if name == "MINUS"@ || name == "-"@ {
        Some(KeyCode::Minus)
    } else if name == "PERIOD"@ || name == "."@ {
        Some(KeyCode::Period)
    } else if name == "QUOTE"@ || name == "'"@ {
        Some(KeyCode::Quote)
    } else if name == "SEMICOLON"@ || name == ";"@ {
        Some(KeyCode::Semicolon)
    } else if name == "SLASH"@ || name == "/"@ {
        Some(KeyCode::Slash)
    } else if name == "BACKSPACE"@ {
        Some(KeyCode::Backspace)
    } else if name == "CAPSLOCK"@ {
        Some(KeyCode::CapsLock)
    } else if name == "ENTER"@ {
        Some(KeyCode::Enter)
    } else if name == "SPACE"@ {
        Some(KeyCode::Space)
    } else if name == "TAB"@ {
        Some(KeyCode::Tab)
    } else if name == "DELETE"@ {
        Some(KeyCode::Delete)
    } else if name == "END"@ {
        Some(KeyCode::End)
    } else if name == "HOME"@ {
        Some(KeyCode::Home)
    } else if name == "INSERT"@ {
        Some(KeyCode::Insert)
    } else if name == "PAGEDOWN"@ {
        Some(KeyCode::PageDown)
    } else if name == "PAGEUP"@ {
        Some(KeyCode::PageUp)
    } else if name == "PRINTSCREEN"@ {
        Some(KeyCode::PrintScreen)
    } else if name == "SCROLLLOCK"@ {
        Some(KeyCode::ScrollLock)
    } else if name == "ARROWDOWN"@ || name == "DOWN"@ {
        Some(KeyCode::ArrowDown)
    } else if name == "ARROWLEFT"@ || name == "LEFT"@ {
        Some(KeyCode::ArrowLeft)
    } else if name == "ARROWRIGHT"@ || name == "RIGHT"@ {
        Some(KeyCode::ArrowRight)
    } else if name == "ARROWUP"@ || name == "UP"@ {
        Some(KeyCode::ArrowUp)
    } else if name == "NUMLOCK"@ {
        Some(KeyCode::NumLock)
    } else if name == "NUMPAD0"@ || name == "NUM0"@ {
        Some(KeyCode::Numpad0)
    } else if name == "NUMPAD1"@ || name == "NUM1"@ {
        Some(KeyCode::Numpad1)
    } else if name == "NUMPAD2"@ || name == "NUM2"@ {
        Some(KeyCode::Numpad2)
    } else if name == "NUMPAD3"@ || name == "NUM3"@ {
        Some(KeyCode::Numpad3)
    } else if name == "NUMPAD4"@ || name == "NUM4"@ {
        Some(KeyCode::Numpad4)
    } else if name == "NUMPAD5"@ || name == "NUM5"@ {
        Some(KeyCode::Numpad5)
    } else if name == "NUMPAD6"@ || name == "NUM6"@ {
        Some(KeyCode::Numpad6)
    } else if name == "NUMPAD7"@ || name == "NUM7"@ {
        Some(KeyCode::Numpad7)
    } else if name == "NUMPAD8"@ || name == "NUM8"@ {
        Some(KeyCode::Numpad8)
    } else if name == "NUMPAD9"@ || name == "NUM9"@ {
        Some(KeyCode::Numpad9)
    } else if name == "NUMPADADD"@ || name == "NUMADD"@ || name == "NUMPADPLUS"@ || name == "NUMPLUS"@ || name == "+"@ {
        Some(KeyCode::NumpadAdd)
    } else if name == "NUMPADDECIMAL"@ || name == "NUMDECIMAL"@ {
        Some(KeyCode::NumpadDecimal)
    } else if name == "NUMPADDIVIDE"@ || name == "NUMDIVIDE"@ {
        Some(KeyCode::NumpadDivide)
    } else if name == "NUMPADENTER"@ || name == "NUMENTER"@ {
        Some(KeyCode::NumpadEnter)
    } else if name == "NUMPADEQUAL"@ || name == "NUMEQUAL"@ {
        Some(KeyCode::NumpadEqual)
    } else if name == "NUMPADMULTIPLY"@ || name == "NUMMULTIPLY"@ {
        Some(KeyCode::NumpadMultiply)
    } else if name == "NUMPADSUBTRACT"@ || name == "NUMSUBTRACT"@ {
        Some(KeyCode::NumpadSubtract)
    } else if name == "ESCAPE"@ || name == "ESC"@ {
        Some(KeyCode::Escape)
    } else if name == "F1"@ {
        Some(KeyCode::F1)
    } else if name == "F2"@ {
        Some(KeyCode::F2)
    } else if name == "F3"@ {
        Some(KeyCode::F3)
    } else if name == "F4"@ {
        Some(KeyCode::F4)
    } else if name == "F5"@ {
        Some(KeyCode::F5)
    } else if name == "F6"@ {
        Some(KeyCode::F6)
    } else if name == "F7"@ {
        Some(KeyCode::F7)
    } else if name == "F8"@ {
        Some(KeyCode::F8)
    } else if name == "F9"@ {
        Some(KeyCode::F9)
    } else if name == "F10"@ {
        Some(KeyCode::F10)
    } else if name == "F11"@ {
        Some(KeyCode::F11)
    } else if name == "F12"@ {
        Some(KeyCode::F12)
    } else if name == "AUDIOVOLUMEDOWN"@ || name == "VOLUMEDOWN"@ {
        Some(KeyCode::AudioVolumeDown)
    } else if name == "AUDIOVOLUMEUP"@ || name == "VOLUMEUP"@ {
        Some(KeyCode::AudioVolumeUp)
    } else if name == "AUDIOVOLUMEMUTE"@ || name == "VOLUMEMUTE"@ {
        Some(KeyCode::AudioVolumeMute)
    } else if name == "MEDIAPLAY"@ {
        Some(KeyCode::MediaPlay)
    } else if name == "MEDIAPAUSE"@ {
        Some(KeyCode::MediaPause)
    } else if name == "MEDIAPLAYPAUSE"@ {
        Some(KeyCode::MediaPlayPause)
    } else if name == "MEDIASTOP"@ {
        Some(KeyCode::MediaStop)
    } else if name == "MEDIATRACKNEXT"@ {
        Some(KeyCode::MediaTrackNext)
    } else if name == "MEDIATRACKPREV"@ || name == "MEDIATRACKPREVIOUS"@ {
        Some(KeyCode::MediaTrackPrevious)
    } else if name == "F13"@ {
        Some(KeyCode::F13)
    } else if name == "F14"@ {
        Some(KeyCode::F14)
    } else if name == "F15"@ {
        Some(KeyCode::F15)
    } else if name == "F16"@ {
        Some(KeyCode::F16)
    } else if name == "F17"@ {
        Some(KeyCode::F17)
    } else if name == "F18"@ {
        Some(KeyCode::F18)
    } else if name == "F19"@ {
        Some(KeyCode::F19)
    } else if name == "F20"@ {
        Some(KeyCode::F20)
    } else if name == "F21"@ {
        Some(KeyCode::F21)
    } else if name == "F22"@ {
        Some(KeyCode::F22)
    } else if name == "F23"@ {
        Some(KeyCode::F23)
    } else if name == "F24"@ {
        Some(KeyCode::F24)
    } else {
        None
    }
}

/// Looks an uppercase name up among the names of the keys.
pub fn find_key_code(name: &str) -> (code: Option<KeyCode>)
    ensures
        code == key_code_of(name@),
{
    if *name == *"BACKQUOTE" || *name == *"`" {
        Some(KeyCode::Backquote)
    } else if *name == *"BACKSLASH" || *name == *"\\" {
        Some(KeyCode::Backslash)
    } else if *name == *"BRACKETLEFT" || *name == *"[" {
        Some(KeyCode::BracketLeft)
    } else if *name == *"BRACKETRIGHT" || *name == *"]" {
        Some(KeyCode::BracketRight)
    } else if *name == *"PAUSE" || *name == *"PAUSEBREAK" {
        Some(KeyCode::Pause)
    } else if *name == *"COMMA" || *name == *"," {
        Some(KeyCode::Comma)
    } else if *name == *"DIGIT0" || *name == *"0" {
        Some(KeyCode::Digit0)
    } else if *name == *"DIGIT1" || *name == *"1" {
        Some(KeyCode::Digit1)
    } else if *name == *"DIGIT2" || *name == *"2" {
        Some(KeyCode::Digit2)
    } else if *name == *"DIGIT3" || *name == *"3" {
        Some(KeyCode::Digit3)
    } else if *name == *"DIGIT4" || *name == *"4" {
        Some(KeyCode::Digit4)
    } else if *name == *"DIGIT5" || *name == *"5" {
        Some(KeyCode::Digit5)
    } else if *name == *"DIGIT6" || *name == *"6" {
        Some(KeyCode::Digit6)
    } else if *name == *"DIGIT7" || *name == *"7" {
        Some(KeyCode::Digit7)
    } else if *name == *"DIGIT8" || *name == *"8" {
        Some(KeyCode::Digit8)
    } else if *name == *"DIGIT9" || *name == *"9" {
        Some(KeyCode::Digit9)
    } else if *name == *"EQUAL" || *name == *"=" {
        Some(KeyCode::Equal)
    } else if *name == *"KEYA" || *name == *"A" {
        Some(KeyCode::KeyA)
    } else if *name == *"KEYB" || *name == *"B" {
        Some(KeyCode::KeyB)
    } else if *name == *"KEYC" || *name == *"C" {
        Some(KeyCode::KeyC)
    } else if *name == *"KEYD" || *name == *"D" {
        Some(KeyCode::KeyD)
    } else if *name == *"KEYE" || *name == *"E" {
        Some(KeyCode::KeyE)
    } else if *name == *"KEYF" || *name == *"F" {
        Some(KeyCode::KeyF)
    } else if *name == *"KEYG" || *name == *"G" {
        Some(KeyCode::KeyG)
    } else if *name == *"KEYH" || *name == *"H" {
        Some(KeyCode::KeyH)
    } else if *name == *"KEYI" || *name == *"I" {
        Some(KeyCode::KeyI)
    } else if *name == *"KEYJ" || *name == *"J" {
        Some(KeyCode::KeyJ)
    } else if *name == *"KEYK" || *name == *"K" {
        Some(KeyCode::KeyK)
    } else if *name == *"KEYL" || *name == *"L" {
        Some(KeyCode::KeyL)
    } else if *name == *"KEYM" || *name == *"M" {
        Some(KeyCode::KeyM)
    } else if *name == *"KEYN" || *name == *"N" {
        Some(KeyCode::KeyN)
    } else if *name == *"KEYO" || *name == *"O" {
        Some(KeyCode::KeyO)
    } else if *name == *"KEYP" || *name == *"P" {
        Some(KeyCode::KeyP)
    } else if *name == *"KEYQ" || *name == *"Q" {
        Some(KeyCode::KeyQ)
    } else if *name == *"KEYR" || *name == *"R" {
        Some(KeyCode::KeyR)
    } else if *name == *"KEYS" || *name == *"S" {
        Some(KeyCode::KeyS)
    } else if *name == *"KEYT" || *name == *"T" {
        Some(KeyCode::KeyT)
    } else if *name == *"KEYU" || *name == *"U" {
        Some(KeyCode::KeyU)
    } else if *name == *"KEYV" || *name == *"V" {
        Some(KeyCode::KeyV)
    } else if *name == *"KEYW" || *name == *"W" {
        Some(KeyCode::KeyW)
    } else if *name == *"KEYX" || *name == *"X" {
        Some(KeyCode::KeyX)
    } else if *name == *"KEYY" || *name == *"Y" {
        Some(KeyCode::KeyY)
    } else if *name == *"KEYZ" || *name == *"Z" {
        Some(KeyCode::KeyZ)
    } else if *name == *"MINUS" || *name == *"-" {
        Some(KeyCode::Minus)
    } else if *name == *"PERIOD" || *name == *"." {
        Some(KeyCode::Period)
    } else if *name == *"QUOTE" || *name == *"'" {
        Some(KeyCode::Quote)
    } else if *name == *"SEMICOLON" || *name == *";" {
        Some(KeyCode::Semicolon)
    } else if *name == *"SLASH" || *name == *"/" {
        Some(KeyCode::Slash)
    } else if *name == *"BACKSPACE" {
        Some(KeyCode::Backspace)
    } else if *name == *"CAPSLOCK" {
        Some(KeyCode::CapsLock)
    } else if *name == *"ENTER" {
        Some(KeyCode::Enter)
    } else if *name == *"SPACE" {
        Some(KeyCode::Space)
    } else if *name == *"TAB" {
        Some(KeyCode::Tab)
    } else if *name == *"DELETE" {
        Some(KeyCode::Delete)
    } else if *name == *"END" {
        Some(KeyCode::End)
    } else if *name == *"HOME" {
        Some(KeyCode::Home)
    } else if *name == *"INSERT" {
        Some(KeyCode::Insert)
    } else if *name == *"PAGEDOWN" {
        Some(KeyCode::PageDown)
    } else if *name == *"PAGEUP" {
        Some(KeyCode::PageUp)
    } else if *name == *"PRINTSCREEN" {
        Some(KeyCode::PrintScreen)
    } else if *name == *"SCROLLLOCK" {
        Some(KeyCode::ScrollLock)
    } else if *name == *"ARROWDOWN" || *name == *"DOWN" {
        Some(KeyCode::ArrowDown)
    } else if *name == *"ARROWLEFT" || *name == *"LEFT" {
        Some(KeyCode::ArrowLeft)
    } else if *name == *"ARROWRIGHT" || *name == *"RIGHT" {
        Some(KeyCode::ArrowRight)
    } else if *name == *"ARROWUP" || *name == *"UP" {
        Some(KeyCode::ArrowUp)
    } else if *name == *"NUMLOCK" {
        Some(KeyCode::NumLock)
    } else if *name == *"NUMPAD0" || *name == *"NUM0" {
        Some(KeyCode::Numpad0)
    } else if *name == *"NUMPAD1" || *name == *"NUM1" {
        Some(KeyCode::Numpad1)
    } else if *name == *"NUMPAD2" || *name == *"NUM2" {
        Some(KeyCode::Numpad2)
    } else if *name == *"NUMPAD3" || *name == *"NUM3" {
        Some(KeyCode::Numpad3)
    } else if *name == *"NUMPAD4" || *name == *"NUM4" {
        Some(KeyCode::Numpad4)
    } else if *name == *"NUMPAD5" || *name == *"NUM5" {
        Some(KeyCode::Numpad5)
    } else if *name == *"NUMPAD6" || *name == *"NUM6" {
        Some(KeyCode::Numpad6)
    } else if *name == *"NUMPAD7" || *name == *"NUM7" {
        Some(KeyCode::Numpad7)
    } else if *name == *"NUMPAD8" || *name == *"NUM8" {
        Some(KeyCode::Numpad8)
    } else if *name == *"NUMPAD9" || *name == *"NUM9" {
        Some(KeyCode::Numpad9)
    } else if *name == *"NUMPADADD" || *name == *"NUMADD" || *name == *"NUMPADPLUS" || *name == *"NUMPLUS" || *name == *"+" {
        Some(KeyCode::NumpadAdd)
    } else if *name == *"NUMPADDECIMAL" || *name == *"NUMDECIMAL" {
        Some(KeyCode::NumpadDecimal)
    } else if *name == *"NUMPADDIVIDE" || *name == *"NUMDIVIDE" {
        Some(KeyCode::NumpadDivide)
    } else if *name == *"NUMPADENTER" || *name == *"NUMENTER" {
        Some(KeyCode::NumpadEnter)
    } else if *name == *"NUMPADEQUAL" || *name == *"NUMEQUAL" {
        Some(KeyCode::NumpadEqual)
    } else if *name == *"NUMPADMULTIPLY" || *name == *"NUMMULTIPLY" {
        Some(KeyCode::NumpadMultiply)
    } else if *name == *"NUMPADSUBTRACT" || *name == *"NUMSUBTRACT" {
        Some(KeyCode::NumpadSubtract)
    } else if *name == *"ESCAPE" || *name == *"ESC" {
        Some(KeyCode::Escape)
    } else if *name == *"F1" {
        Some(KeyCode::F1)
    } else if *name == *"F2" {
        Some(KeyCode::F2)
    } else if *name == *"F3" {
        Some(KeyCode::F3)
    } else if *name == *"F4" {
        Some(KeyCode::F4)
    } else if *name == *"F5" {
        Some(KeyCode::F5)
    } else if *name == *"F6" {
        Some(KeyCode::F6)
    } else if *name == *"F7" {
        Some(KeyCode::F7)
    } else if *name == *"F8" {
        Some(KeyCode::F8)
    } else if *name == *"F9" {
        Some(KeyCode::F9)
    } else if *name == *"F10" {
        Some(KeyCode::F10)
    } else if *name == *"F11" {
        Some(KeyCode::F11)
    } else if *name == *"F12" {
        Some(KeyCode::F12)
    } else if *name == *"AUDIOVOLUMEDOWN" || *name == *"VOLUMEDOWN" {
        Some(KeyCode::AudioVolumeDown)
    } else if *name == *"AUDIOVOLUMEUP" || *name == *"VOLUMEUP" {
        Some(KeyCode::AudioVolumeUp)
    } else if *name == *"AUDIOVOLUMEMUTE" || *name == *"VOLUMEMUTE" {
        Some(KeyCode::AudioVolumeMute)
    } else if *name == *"MEDIAPLAY" {
        Some(KeyCode::MediaPlay)
    } else if *name == *"MEDIAPAUSE" {
        Some(KeyCode::MediaPause)
    } else if *name == *"MEDIAPLAYPAUSE" {
        Some(KeyCode::MediaPlayPause)
    } else if *name == *"MEDIASTOP" {
        Some(KeyCode::MediaStop)
    } else if *name == *"MEDIATRACKNEXT" {
        Some(KeyCode::MediaTrackNext)
    } else if *name == *"MEDIATRACKPREV" || *name == *"MEDIATRACKPREVIOUS" {
        Some(KeyCode::MediaTrackPrevious)
    } else if *name == *"F13" {
        Some(KeyCode::F13)
    } else if *name == *"F14" {
        Some(KeyCode::F14)
    } else if *name == *"F15" {
        Some(KeyCode::F15)
    } else if *name == *"F16" {
        Some(KeyCode::F16)
    } else if *name == *"F17" {
        Some(KeyCode::F17)
    } else if *name == *"F18" {
        Some(KeyCode::F18)
    } else if *name == *"F19" {
        Some(KeyCode::F19)
    } else if *name == *"F20" {
        Some(KeyCode::F20)
    } else if *name == *"F21" {
        Some(KeyCode::F21)
    } else if *name == *"F22" {
        Some(KeyCode::F22)
    } else if *name == *"F23" {
        Some(KeyCode::F23)
    } else if *name == *"F24" {
        Some(KeyCode::F24)
    } else {
        None
    }
}

/// The key that a name stands for. Upper and lower case are not told apart.
pub fn parse_key_code(key: &str) -> (code: Result<KeyCode, HotkeyError>)
    ensures
        code matches Ok(found) ==> key_code_of(uppercase(key@)) == Some(found),
        code matches Err(error) ==> key_code_of(uppercase(key@)) is None && error@
            == HotkeyErrorView::UnknownKey(key@),
{
    let upper = key.to_uppercase();
    match find_key_code(upper.as_str()) {
        Some(found) => Ok(found),
        None => Err(HotkeyError::UnknownKey(String::from_str(key))),
    }
}

/// What has been read of a key combination so far.
#[derive(Debug, Clone, Copy, PartialEq, Eq, Structural)]
pub struct Partial {
    pub modifiers: Modifiers,
    pub code: Option<KeyCode>,
}

/// Nothing read yet.
pub open spec fn nothing_read() -> Partial {
    Partial {
        modifiers: Modifiers { control: false, shift: false, alt: false, meta: false },
        code: None,
    }
}

/// Reads one more part, given its name in lower case. The names of the
/// modifiers switch the modifier on, however often they occur; any other
/// name must be that of a key, and only one part may name a key.
pub open spec fn with_name(partial: Partial, name: Seq<char>) -> Result<Partial, HotkeyErrorView> {
    let held = partial.modifiers;
    if name == "ctrl"@ || name == "control"@ {
        Ok(
            Partial {
                modifiers: Modifiers {
                    control: true,
                    shift: held.shift,
                    alt: held.alt,
                    meta: held.meta,
                },
                code: partial.code,
            },
        )
    } else if name == "shift"@ {
        Ok(
            Partial {
                modifiers: Modifiers {
                    control: held.control,
                    shift: true,
                    alt: held.alt,
                    meta: held.meta,
                },
                code: partial.code,
            },
        )
    } else if name == "alt"@ {
        Ok(
            Partial {
                modifiers: Modifiers {
                    control: held.control,
                    shift: held.shift,
                    alt: true,
                    meta: held.meta,
                },
                code: partial.code,
            },
        )
    } else if name == "super"@ || name == "win"@ || name == "cmd"@ || name == "meta"@ {
        Ok(
            Partial {
                modifiers: Modifiers {
                    control: held.control,
                    shift: held.shift,
                    alt: held.alt,
                    meta: true,
                },
                code: partial.code,
            },
        )
    } else if partial.code is Some {
        Err(HotkeyErrorView::InvalidKeyFormat("Multiple non-modifier keys specified"@))
    } else {
        match key_code_of(uppercase(name)) {
            Some(code) => Ok(Partial { modifiers: held, code: Some(code) }),
            None => Err(HotkeyErrorView::UnknownKey(name)),
        }
    }
}

/// Reads one more part. Upper and lower case are not told apart.
pub open spec fn with_part(partial: Partial, part: Seq<char>) -> Result<Partial, HotkeyErrorView> {
    with_name(partial, lowercase(part))
}

/// Reads the parts in their order, up to the first that is in error.
pub open spec fn with_parts(parts: Seq<Seq<char>>) -> Result<Partial, HotkeyErrorView>
    decreases parts.len(),
{
    if parts.len() == 0 {
        Ok(nothing_read())
    } else {
        match with_parts(parts.drop_last()) {
            Ok(partial) => with_part(partial, parts.last()),
            Err(error) => Err(error),
        }
    }
}

/// The key combination that a text describes: its parts name any number of
/// modifiers and exactly one key.
pub open spec fn parsed(text: Seq<char>) -> Result<KeyCombination, HotkeyErrorView> {
    if tokens(text).len() == 0 {
        Err(HotkeyErrorView::InvalidKeyFormat(text))
    } else {
        match with_parts(tokens(text)) {
            Err(error) => Err(error),
            Ok(partial) => match partial.code {
                Some(code) => Ok(KeyCombination { modifiers: partial.modifiers, code }),
                None => Err(HotkeyErrorView::InvalidKeyFormat("No key code specified"@)),
            },
        }
    }
}

/// Reads one more part of a key combination, given what has been read so far
/// and the part's name in lower case.
pub fn read_part(partial: Partial, name: &str) -> (next: Result<Partial, HotkeyError>)
    ensures
        next matches Ok(read) ==> with_name(partial, name@) == Ok::<Partial, HotkeyErrorView>(read),
        next matches Err(error) ==> with_name(partial, name@) == Err::<Partial, HotkeyErrorView>(
            error@,
        ),
{
    let held = partial.modifiers;
    if *name == *"ctrl" || *name == *"control" {
        Ok(
            Partial {
                modifiers: Modifiers {
                    control: true,
                    shift: held.shift,
                    alt: held.alt,
                    meta: held.meta,
                },
                code: partial.code,
            },
        )
    } else if *name == *"shift" {
        Ok(
            Partial {
                modifiers: Modifiers {
                    control: held.control,
                    shift: true,
                    alt: held.alt,
                    meta: held.meta,
                },
                code: partial.code,
            },
        )
    } else if *name == *"alt" {
        Ok(
            Partial {
                modifiers: Modifiers {
                    control: held.control,
                    shift: held.shift,
                    alt: true,
                    meta: held.meta,
                },
                code: partial.code,
            },
        )
    } else if *name == *"super" || *name == *"win" || *name == *"cmd" || *name == *"meta" {
        Ok(
            Partial {
                modifiers: Modifiers {
                    control: held.control,
                    shift: held.shift,
                    alt: held.alt,
                    meta: true,
                },
                code: partial.code,
            },
        )
    } else if partial.code.is_some() {
        Err(HotkeyError::InvalidKeyFormat(String::from_str("Multiple non-modifier keys specified")))
    } else {
        match parse_key_code(name) {
            Ok(code) => Ok(Partial { modifiers: held, code: Some(code) }),
            Err(error) => Err(error),
        }
    }
}

/// Reads a key combination written as text, such as `ctrl+shift+k`.
pub fn parse_hotkey(key_string: &str) -> (hotkey: Result<KeyCombination, HotkeyError>)
    ensures
        hotkey matches Ok(combination) ==> parsed(key_string@) == Ok::<
            KeyCombination,
            HotkeyErrorView,
        >(combination),
        hotkey matches Err(error) ==> parsed(key_string@) == Err::<
            KeyCombination,
            HotkeyErrorView,
        >(error@),
{
    let parts = split_key_str(key_string);
    if parts.len() == 0 {
        return Err(HotkeyError::InvalidKeyFormat(String::from_str(key_string)));
    }
    let mut partial = Partial {
        modifiers: Modifiers { control: false, shift: false, alt: false, meta: false },
        code: None,
    };
    let mut i: usize = 0;
    while i < parts.len()
        invariant
            i <= parts.len(),
            parts.deep_view() == tokens(key_string@),
            with_parts(parts.deep_view().take(i as int)) == Ok::<Partial, HotkeyErrorView>(partial),
        decreases parts.len() - i,
    {
        let ghost all = parts.deep_view();
        assert(all.take(i + 1).drop_last() == all.take(i as int));
        let lower = parts[i].to_lowercase();
        match read_part(partial, lower.as_str()) {
            Ok(read) => {
                partial = read;
            },
            Err(error) => {
                proof {
                    lemma_first_error_stays(all, i + 1);
                }
                return Err(error);
            },
        }
        i = i + 1;
    }
    assert(parts.deep_view().take(i as int) == parts.deep_view());
    match partial.code {
        Some(code) => Ok(KeyCombination { modifiers: partial.modifiers, code }),
        None => Err(HotkeyError::InvalidKeyFormat(String::from_str("No key code specified"))),
    }
}

/// Once reading has failed, it has failed: further parts do not change the error.
proof fn lemma_first_error_stays(parts: Seq<Seq<char>>, k: int)
    requires
        0 <= k <= parts.len(),
        with_parts(parts.take(k)) is Err,
    ensures
        with_parts(parts) == with_parts(parts.take(k)),
    decreases parts.len(),
{
    if k < parts.len() {
        assert(parts.drop_last().take(k) == parts.take(k));
        lemma_first_error_stays(parts.drop_last(), k);
    } else {
        assert(parts.take(k) == parts);
    }
}

/// What a refusal of the hotkey source reads as.
pub open spec fn refusal_text(reason: Seq<char>) -> Seq<char> {
    "Error:"@ + reason
}

/// Completes a request to register a hotkey, once the hotkey source has been
/// asked. If the source refused, for `refusal`, nothing is registered and the
/// request failed. If it accepted, the binding is entered under the
/// identifier `id` that the source reports the hotkey by, unless that
/// identifier is bound already, and the request succeeded.
pub fn register_hotkey(
    table: &mut HotkeyTable,
    id: u32,
    key: String,
    func: String,
    refusal: Option<String>,
) -> (response: HotkeyResponse)
    ensures
        match refusal {
            Some(reason) => {
                &&& final(table)@ == old(table)@
                &&& response matches HotkeyResponse::Failed { err } && err@ == refusal_text(reason@)
            },
            None => {
                &&& response == (HotkeyResponse::Registered { key })
                &&& old(table)@.contains_key(id) ==> final(table)@ == old(table)@
                &&& !old(table)@.contains_key(id) ==> final(table)@ == old(table)@.insert(
                    id,
                    HotkeyBinding { id, key, func },
                )
            },
        },
{
    match refusal {
        Some(reason) => HotkeyResponse::Failed {
            err: String::from_str("Error:").concat(reason.as_str()),
        },
        None => {
            table.register(HotkeyBinding { id, key: key.clone(), func });
            HotkeyResponse::Registered { key }
        },
    }
}

} // verus!
