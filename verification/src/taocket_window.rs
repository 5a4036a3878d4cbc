//! The cross-thread path to the thread that owns the window: the actions that
//! any thread may ask for, the handle through which it asks, and the inbox
//! from which the owner takes them.
use crate::events::Payload;
use crate::registry::{ClientRegistry, Delivery};
use crate::taocket_protocol::{plain_response, AssetResponse};
use crate::ws::Message;
use vstd::prelude::*;
use vstd::string::StringExecFns;
use vstd::utf8::encode_utf8;

verus! {

/// A command for the window, with its argument.
#[derive(Debug, Clone, Copy, PartialEq, Eq, Structural)]
pub enum WindowCommand {
    SetMinimized(bool),
    SetMaximized(bool),
    SetFocus,
    DragWindow,
    SetInnerSize { width: u32, height: u32 },
    SetOuterPosition { x: i32, y: i32 },
}

/// What a producer may ask of the window itself.
#[derive(Debug, Clone, Copy, PartialEq, Eq, Structural)]
pub enum UserWindowEvent {
    Minimize,
    Maximize,
    UnMaximize,
    Close,
    Focus,
}

/// An action for the thread that owns the window, sent from any thread.
#[derive(Debug, Clone, PartialEq)]
pub enum TxEvent<X> {
    /// An event of the embedding application, handed on to its own handler.
    User(X),
    /// A script to evaluate in the UI surface.
    Script(String),
    /// A command for the window.
    Window(UserWindowEvent),
}

/// The mathematical content of a [`TxEvent`].
pub enum TxEventView<X> {
    User(X),
    Script(Seq<char>),
    Window(UserWindowEvent),
}

impl<X> View for TxEvent<X> {
    type V = TxEventView<X>;

    open spec fn view(&self) -> TxEventView<X> {
        match self {
            TxEvent::User(event) => TxEventView::User(*event),
            TxEvent::Script(script) => TxEventView::Script(script@),
            TxEvent::Window(command) => TxEventView::Window(*command),
        }
    }
}

impl<X> DeepView for TxEvent<X> {
    type V = TxEventView<X>;

    open spec fn deep_view(&self) -> TxEventView<X> {
        self@
    }
}

/// `crossbeam_channel::Sender`: the sending end of a channel, carried as an opaque value.
#[verifier::external_type_specification]
#[verifier::external_body]
#[verifier::reject_recursive_types(T)]
pub struct ExChannelSender<T>(crossbeam_channel::Sender<T>);

/// `crossbeam_channel::Receiver`: the receiving end of a channel, carried as an opaque value.
#[verifier::external_type_specification]
#[verifier::external_body]
#[verifier::reject_recursive_types(T)]
pub struct ExChannelReceiver<T>(crossbeam_channel::Receiver<T>);

/// `crossbeam_channel::SendError`: the error of a send that found no receiver, carried as an opaque value.
#[verifier::external_type_specification]
#[verifier::external_body]
#[verifier::reject_recursive_types(T)]
pub struct ExChannelSendError<T>(crossbeam_channel::SendError<T>);

/// `crossbeam_channel::TryRecvError`: why nothing could be taken without waiting, carried as an opaque value.
#[verifier::external_type_specification]
#[verifier::external_body]
pub struct ExChannelTryRecvError(crossbeam_channel::TryRecvError);

/// `crossbeam_channel::unbounded`: a fresh channel without a capacity limit.
/// Nothing is claimed of the two ends.
pub assume_specification<T>[ crossbeam_channel::unbounded::<T> ]() -> (ends: (
    crossbeam_channel::Sender<T>,
    crossbeam_channel::Receiver<T>,
));

/// `crossbeam_channel::Sender::send`: hands a value to the channel. It fails
/// when every receiver is gone, so nothing is claimed of the result.
pub assume_specification<T>[ crossbeam_channel::Sender::<T>::send ](
    tx: &crossbeam_channel::Sender<T>,
    msg: T,
) -> (outcome: Result<(), crossbeam_channel::SendError<T>>);

/// `Clone` of `crossbeam_channel::Sender`: another handle on the same
/// channel. Nothing is claimed of it.
pub assume_specification<T>[ <crossbeam_channel::Sender<T> as Clone>::clone ](
    tx: &crossbeam_channel::Sender<T>,
) -> (copy: crossbeam_channel::Sender<T>);

/// `crossbeam_channel::Receiver::try_recv`: takes the oldest queued value
/// without waiting. What is queued depends on the senders, so nothing is
/// claimed of the result.
pub assume_specification<T>[ crossbeam_channel::Receiver::<T>::try_recv ](
    rx: &crossbeam_channel::Receiver<T>,
) -> (outcome: Result<T, crossbeam_channel::TryRecvError>);

/// `crossbeam_channel::Receiver::len`: how many values are queued right now.
pub assume_specification<T>[ crossbeam_channel::Receiver::<T>::len ](
    rx: &crossbeam_channel::Receiver<T>,
) -> (queued: usize);

/// The handle through which any thread asks for actions on the owner's
/// thread. It holds only the producing side of the action queue, and can be
/// copied freely.
#[derive(Debug)]
#[verifier::reject_recursive_types(X)]
pub struct Dispatcher<X> {
    tx: crossbeam_channel::Sender<TxEvent<X>>,
}

/// The consuming side of the action queue, held by the owner's thread.
#[derive(Debug)]
#[verifier::reject_recursive_types(X)]
pub struct ActionInbox<X> {
    rx: crossbeam_channel::Receiver<TxEvent<X>>,
}

/// Creates the action queue: an unbounded channel, first in, first out.
pub fn action_queue<X>() -> (ends: (Dispatcher<X>, ActionInbox<X>)) {
    let (tx, rx) = crossbeam_channel::unbounded();
    (Dispatcher::new(tx), ActionInbox { rx })
}

impl<X> Clone for Dispatcher<X> {
    fn clone(&self) -> (copy: Self) {
        Dispatcher { tx: self.tx.clone() }
    }
}

impl<X> Dispatcher<X> {
    /// The channel end that the dispatcher wraps.
    pub closed spec fn channel(&self) -> crossbeam_channel::Sender<TxEvent<X>> {
        self.tx
    }

    /// The dispatcher on the sending end `tx` of an action queue.
    pub fn new(tx: crossbeam_channel::Sender<TxEvent<X>>) -> (dispatcher: Self)
        ensures
            dispatcher.channel() == tx,
    {
        Dispatcher { tx }
    }

    /// Queues an action. `false` means that the owner's inbox is gone.
    pub fn send(&self, event: TxEvent<X>) -> (accepted: bool) {
        self.tx.send(event).is_ok()
    }

    /// Queues a script for evaluation in the UI surface.
    pub fn send_script(&self, script: String) -> (accepted: bool) {
        self.send(TxEvent::Script(script))
    }

    /// Queues an event for the embedding application's own handler.
    pub fn send_user(&self, event: X) -> (accepted: bool) {
        self.send(TxEvent::User(event))
    }

    /// Queues a command for the window.
    pub fn send_window(&self, event: UserWindowEvent) -> (accepted: bool) {
        self.send(TxEvent::Window(event))
    }
}

/// Puts what one receive gave behind the batch taken so far, and says
/// whether to go on: a received action goes in last and the drain goes on;
/// a receive that gave nothing leaves the batch as it is and ends the drain.
pub fn take_received<X>(batch: &mut Vec<TxEvent<X>>, received: Option<TxEvent<X>>) -> (more: bool)
    ensures
        received matches Some(event) ==> final(batch)@ == old(batch)@.push(event) && more,
        received is None ==> final(batch)@ == old(batch)@ && !more,
{
    match received {
        Some(event) => {
            batch.push(event);
            true
        },
        None => false,
    }
}

impl<X> ActionInbox<X> {
    /// Takes the actions that are queued at the moment of the call, oldest
    /// first, and no more than those: what producers add while the drain is
    /// under way stays queued for the next one.
    pub fn drain(&self) -> (batch: Vec<TxEvent<X>>) {
        let waiting = self.rx.len();
        self.drain_up_to(waiting)
    }

    /// Takes queued actions, oldest first, until `limit` of them have been
    /// taken or none is left, whichever comes first. So a drain is bounded
    /// however fast producers add to the queue.
    pub fn drain_up_to(&self, limit: usize) -> (batch: Vec<TxEvent<X>>)
        ensures
            batch@.len() <= limit,
    {
        let mut batch: Vec<TxEvent<X>> = Vec::new();
        while batch.len() < limit
            invariant
                batch@.len() <= limit,
            decreases limit - batch@.len(),
        {
            let received = self.rx.try_recv().ok();
            if !take_received(&mut batch, received) {
                break ;
            }
        }
        batch
    }
}

/// Hands `message`, as text, to every connection that the registry holds.
pub fn broadcast_message(clients: &ClientRegistry, message: String) -> (report: Vec<Delivery>)
    ensures
        report@.len() == clients@.len(),
        crate::registry::recipients(report@).no_duplicates(),
        crate::registry::recipients(report@).to_set() == clients@.dom(),
{
    clients.broadcast(&Message::Text(message))
}

/// The attributes of the window and of what it shows.
#[derive(Debug, Clone)]
pub struct WindowAttrs {
    /// The address of the development server, in a development build.
    pub dev_url: Option<String>,
    /// The directory that holds the built frontend.
    pub build_path: String,
    pub with_devtools: bool,
    /// The port on which the network side listens.
    pub websocket_port: u16,
}

impl WindowAttrs {
    /// The attributes that a configuration asks for. Only a development
    /// build takes the frontend from the development server.
    pub fn from_config(
        development_build: bool,
        dev_url: &str,
        build_path: &str,
        devtools: bool,
        websocket_port: u16,
    ) -> (attrs: Self)
        ensures
            development_build ==> (attrs.dev_url matches Some(address) && address@ == dev_url@),
            !development_build ==> attrs.dev_url is None,
            attrs.build_path@ == build_path@,
            attrs.with_devtools == devtools,
            attrs.websocket_port == websocket_port,
    {
        WindowAttrs {
            dev_url: if development_build {
                Some(String::from_str(dev_url))
            } else {
                None
            },
            build_path: String::from_str(build_path),
            with_devtools: devtools,
            websocket_port,
        }
    }
}

/// A source of the frontend's files, by path.
pub trait AssetProvider: Send + Sync + core::fmt::Debug {
    /// The contents of the file at `path`, if there is one.
    fn get(&self, path: &str) -> Option<Vec<u8>>;

    /// Whether there is a file at `path`.
    fn has_asset(&self, path: &str) -> bool {
        self.get(path).is_some()
    }
}

/// What the frontend may ask of the window through the built-in channel.
#[derive(Debug, Clone, Copy, PartialEq, Eq, Structural)]
pub enum InternalWindowEvent {
    Minimize,
    Maximize,
    UnMaximize,
    Close,
    Focus,
    IsFocus,
    Move,
    IsMaximized,
    IsMinimized,
}

/// The name of a built-in window event.
pub open spec fn event_name(event: InternalWindowEvent) -> Seq<char> {
    match event {
        InternalWindowEvent::Minimize => "Minimize"@,
        InternalWindowEvent::Maximize => "Maximize"@,
        InternalWindowEvent::UnMaximize => "UnMaximize"@,
        InternalWindowEvent::Close => "Close"@,
        InternalWindowEvent::Move => "Move"@,
        InternalWindowEvent::Focus => "Focus"@,
        InternalWindowEvent::IsFocus => "IsFocus"@,
        InternalWindowEvent::IsMaximized => "IsMaximized"@,
        InternalWindowEvent::IsMinimized => "IsMinimized"@,
    }
}

impl InternalWindowEvent {
    /// The name of the event.
    pub fn as_str(&self) -> (name: &'static str)
        ensures
            name@ == event_name(*self),
    {
        match self {
            InternalWindowEvent::Minimize => "Minimize",
            InternalWindowEvent::Maximize => "Maximize",
            InternalWindowEvent::UnMaximize => "UnMaximize",
            InternalWindowEvent::Close => "Close",
            InternalWindowEvent::Move => "Move",
            InternalWindowEvent::Focus => "Focus",
            InternalWindowEvent::IsFocus => "IsFocus",
            InternalWindowEvent::IsMaximized => "IsMaximized",
            InternalWindowEvent::IsMinimized => "IsMinimized",
        }
    }

    /// The name of the event under which the answer to this event is dispatched.
    pub fn to_str_response(&self) -> (name: String)
        ensures
            name@ == event_name(*self) + "-response"@,
    {
        String::from_str(self.as_str()).concat("-response")
    }
}

/// What the window says of itself.
#[derive(Debug, Clone, Copy, PartialEq, Eq, Structural)]
pub struct WindowState {
    pub maximized: bool,
    pub minimized: bool,
    pub focused: bool,
}

/// What is to be done about a built-in window event.
#[derive(Debug, Clone, Copy, PartialEq, Eq, Structural)]
pub enum InternalStep {
    /// Apply a command to the window.
    Apply(WindowCommand),
    /// End the loop, in order.
    Close,
    /// Tell the frontend a state of the window, under the event's answer name.
    Report { event: InternalWindowEvent, state: bool },
}

/// What is to be done about a built-in window event, given the state of the
/// window. Maximize toggles. Close ends the loop. The three queries report
/// the state they ask for and change nothing.
pub open spec fn internal_step(event: InternalWindowEvent, window: WindowState) -> InternalStep {
    match event {
        InternalWindowEvent::Minimize => InternalStep::Apply(WindowCommand::SetMinimized(true)),
        InternalWindowEvent::Maximize => InternalStep::Apply(
            WindowCommand::SetMaximized(!window.maximized),
        ),
        InternalWindowEvent::UnMaximize => InternalStep::Apply(WindowCommand::SetMaximized(false)),
        InternalWindowEvent::Close => InternalStep::Close,
        InternalWindowEvent::Move => InternalStep::Apply(WindowCommand::DragWindow),
        InternalWindowEvent::Focus => InternalStep::Apply(WindowCommand::SetFocus),
        InternalWindowEvent::IsMaximized => InternalStep::Report { event, state: window.maximized },
        InternalWindowEvent::IsMinimized => InternalStep::Report { event, state: window.minimized },
        InternalWindowEvent::IsFocus => InternalStep::Report { event, state: window.focused },
    }
}

/// Decides what is to be done about a built-in window event.
pub fn handle_internal_window_event(event: InternalWindowEvent, window: WindowState) -> (step:
    InternalStep)
    ensures
        step == internal_step(event, window),
{
    match event {
        InternalWindowEvent::Minimize => InternalStep::Apply(WindowCommand::SetMinimized(true)),
        InternalWindowEvent::Maximize => InternalStep::Apply(
            WindowCommand::SetMaximized(!window.maximized),
        ),
        InternalWindowEvent::UnMaximize => InternalStep::Apply(WindowCommand::SetMaximized(false)),
        InternalWindowEvent::Close => InternalStep::Close,
        InternalWindowEvent::Move => InternalStep::Apply(WindowCommand::DragWindow),
        InternalWindowEvent::Focus => InternalStep::Apply(WindowCommand::SetFocus),
        InternalWindowEvent::IsMaximized => InternalStep::Report { event, state: window.maximized },
        InternalWindowEvent::IsMinimized => InternalStep::Report { event, state: window.minimized },
        InternalWindowEvent::IsFocus => InternalStep::Report { event, state: window.focused },
    }
}

/// The JSON text that tells a state of the window: an object with the
/// event's name as `type` and the state as `value`.
pub open spec fn state_payload(event: InternalWindowEvent, state: bool) -> Seq<char> {
    "{\"type\":\""@ + event_name(event) + "\",\"value\":"@ + (if state {
        "true"@
    } else {
        "false"@
    }) + "}"@
}

/// The script that dispatches the custom event `name` on the window, with
/// the JSON text `detail` as its detail, from inside a function of its own.
pub open spec fn callback_script(name: Seq<char>, detail: Seq<char>) -> Seq<char> {
    "(() => { const event = new CustomEvent(\""@ + name + "\", { detail: "@ + detail
        + " }); window.dispatchEvent(event); })();"@
}

/// Builds the script that dispatches a custom event from inside a function
/// of its own.
pub fn build_callback_script(name: &str, detail: &str) -> (script: String)
    ensures
        script@ == callback_script(name@, detail@),
{
    let mut script = String::from_str("(() => { const event = new CustomEvent(\"");
    script.append(name);
    script.append("\", { detail: ");
    script.append(detail);
    script.append(" }); window.dispatchEvent(event); })();");
    script
}

/// The script that answers a query about the window: it dispatches the
/// event's answer name with the state as detail.
pub fn send_window_state_response(event: InternalWindowEvent, state: bool) -> (script: String)
    ensures
        script@ == callback_script(
            event_name(event) + "-response"@,
            state_payload(event, state),
        ),
{
    let mut payload = String::from_str("{\"type\":\"");
    payload.append(event.as_str());
    payload.append("\",\"value\":");
    if state {
        payload.append("true");
    } else {
        payload.append("false");
    }
    payload.append("}");
    let name = event.to_str_response();
    build_callback_script(name.as_str(), payload.as_str())
}

/// Where a call of the frontend goes.
#[derive(Debug)]
pub enum IpcRoute<C, E> {
    /// To the built-in handler.
    Internal(Payload<C>),
    /// To the application's handler.
    User(Payload<E>),
    /// Nowhere. No answer is sent for it.
    Dropped,
}

/// Decides where a call of the frontend goes, given what it parsed as. A
/// call that is a built-in event goes to the built-in handler, and only
/// there; if the UI surface is not ready yet, it is dropped. Any other call
/// goes to the application's handler if it is one of the application's
/// events, and is dropped if it is not.
pub fn handle_ipc_message<C, E>(
    internal: Option<Payload<C>>,
    surface_ready: bool,
    user: Option<Payload<E>>,
) -> (route: IpcRoute<C, E>)
    ensures
        route == (match internal {
            Some(payload) => if surface_ready {
                IpcRoute::<C, E>::Internal(payload)
            } else {
                IpcRoute::<C, E>::Dropped
            },
            None => match user {
                Some(payload) => IpcRoute::<C, E>::User(payload),
                None => IpcRoute::<C, E>::Dropped,
            },
        }),
{
    match internal {
        Some(payload) => if surface_ready {
            IpcRoute::Internal(payload)
        } else {
            IpcRoute::Dropped
        },
        None => match user {
            Some(payload) => IpcRoute::User(payload),
            None => IpcRoute::Dropped,
        },
    }
}

/// `mime_guess::from_path` and `MimeGuess::first_or_octet_stream`: the media
/// type that the file extension of a path suggests, or
/// `application/octet-stream` where it suggests none. What counts as the
/// extension is decided by the path rules of the platform, so nothing is
/// claimed of the result.
#[verifier::external_body]
fn guess_mime(path: &str) -> (mime: String) {
    mime_guess::from_path(path).first_or_octet_stream().as_ref().to_string()
}

/// The file that a request path asks for: the path without its leading
/// slashes, or the index page if nothing is left.
pub open spec fn asset_path(path: Seq<char>) -> Seq<char>
    decreases path.len(),
{
    if path.len() == 0 {
        "index.html"@
    } else if path[0] == '/' {
        asset_path(path.skip(1))
    } else {
        path
    }
}

/// The file that a request path asks for.
pub fn request_asset_path(path: &str) -> (file: String)
    ensures
        file@ == asset_path(path@),
{
    let chars = crate::text::chars_of(path);
    let n = chars.len();
    let mut i: usize = 0;
    assert(path@.skip(0) == path@);
    while i < n && chars[i] == '/'
        invariant
            chars@ == path@,
            n == chars.len(),
            i <= n,
            asset_path(path@.skip(i as int)) == asset_path(path@),
        decreases n - i,
    {
        assert(path@.skip(i as int).skip(1) == path@.skip(i + 1));
        i = i + 1;
    }
    if i == n {
        String::from_str("index.html")
    } else {
        let rest = vstd::string::StrSliceExecFns::substring_char(path, i, n);
        String::from_str(rest)
    }
}

/// The answer that sends a file: status 200, the content, and leave to any
/// origin to read it. The content type is the one that the path suggests.
pub fn create_response(path: &str, content: Vec<u8>) -> (response: AssetResponse)
    ensures
        response.status == 200,
        response.allow_any_origin,
        response.body == content,
{
    AssetResponse {
        status: 200,
        content_type: guess_mime(path),
        allow_any_origin: true,
        body: content,
    }
}

/// The sentence that says that a file was not found.
pub open spec fn not_found_text(path: Seq<char>) -> Seq<char> {
    "404 Not Found: "@ + path
}

/// The answer for a file that does not exist: status 404, as plain text.
pub fn not_found_response(path: &str) -> (response: AssetResponse)
    ensures
        response.status == 404,
        response.content_type@ == "text/plain"@,
        !response.allow_any_origin,
        response.body@ == encode_utf8(not_found_text(path@)),
{
    let text = String::from_str("404 Not Found: ").concat(path);
    plain_response(404, text.as_str())
}

/// The answer for a request that could not be served: status 500, as plain text.
pub fn error_response(message: &str) -> (response: AssetResponse)
    ensures
        response.status == 500,
        response.content_type@ == "text/plain"@,
        !response.allow_any_origin,
        response.body@ == encode_utf8(message@),
{
    plain_response(500, message)
}

/// How a request for a file is answered.
#[derive(Debug)]
pub enum AssetDecision {
    /// With this response.
    Respond(AssetResponse),
    /// With the file of the build directory that the request path asks for.
    ServeFile,
}

/// Decides how a request for the file `file` is answered, given what the
/// embedded assets hold for it and whether there is a build directory to
/// fall back on. Embedded content comes first; the build directory second;
/// with neither, the file is not found.
pub fn asset_decision(file: &str, embedded: Option<Vec<u8>>, on_disk: bool) -> (decision:
    AssetDecision)
    ensures
        match embedded {
            Some(content) => decision matches AssetDecision::Respond(response) && response.status
                == 200 && response.allow_any_origin && response.body == content,
            None => if on_disk {
                decision is ServeFile
            } else {
                decision matches AssetDecision::Respond(response) && response.status == 404
                    && response.content_type@ == "text/plain"@ && !response.allow_any_origin
                    && response.body@ == encode_utf8(not_found_text(file@))
            },
        },
{
    match embedded {
        Some(content) => AssetDecision::Respond(create_response(file, content)),
        None => if on_disk {
            AssetDecision::ServeFile
        } else {
            AssetDecision::Respond(not_found_response(file))
        },
    }
}

/// Decides how a request for `path` is answered: looks the requested file up
/// in the embedded assets, if there are any, and goes by what they hold.
pub fn handle_asset_request<A: AssetProvider>(
    path: &str,
    embedded_assets: Option<&A>,
    on_disk: bool,
) -> (decision: AssetDecision)
    ensures
        embedded_assets is None && on_disk ==> decision is ServeFile,
        embedded_assets is None && !on_disk ==> (decision matches AssetDecision::Respond(response)
            && response.status == 404 && response.body@ == encode_utf8(
            not_found_text(asset_path(path@)),
        )),
        decision matches AssetDecision::Respond(response) ==> response.status == 200
            || response.status == 404,
{
    let file = request_asset_path(path);
    let embedded = match embedded_assets {
        Some(assets) => assets.get(file.as_str()),
        None => None,
    };
    asset_decision(file.as_str(), embedded, on_disk)
}

} // verus!
