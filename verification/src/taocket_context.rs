//! Script injection: what the owner of the UI surface is asked to evaluate,
//! and the exact text of each request.
use vstd::prelude::*;
use vstd::string::StringExecFns;

verus! {

/// A request to the UI surface.
#[derive(Debug, Clone)]
pub enum ScriptEvent {
    /// Evaluate the script as it stands.
    Raw(String),
    /// Dispatch a custom event on the window. `detail` is JSON text.
    CustomEvent { name: String, detail: String },
    /// Reload the page.
    Reload,
    /// Go to another address.
    Navigate(String),
    /// Open the developer tools. This is no script.
    ToggleDevTools,
}

/// The script that dispatches the custom event `name` on the window, with the
/// JSON text `detail` as the event's detail.
pub open spec fn custom_event_script(name: Seq<char>, detail: Seq<char>) -> Seq<char> {
    "window.dispatchEvent(new CustomEvent('"@ + name + "', { detail: "@ + detail + " }));"@
}

/// The script that sends the page to `url`.
pub open spec fn navigate_script(url: Seq<char>) -> Seq<char> {
    "window.location.href = '"@ + url + "';"@
}

/// The script that a request stands for. Opening the developer tools is the
/// one request that is no script.
pub open spec fn script_of(event: ScriptEvent) -> Option<Seq<char>> {
    match event {
        ScriptEvent::Raw(script) => Some(script@),
        ScriptEvent::CustomEvent { name, detail } => Some(custom_event_script(name@, detail@)),
        ScriptEvent::Reload => Some("window.location.reload();"@),
        ScriptEvent::Navigate(url) => Some(navigate_script(url@)),
        ScriptEvent::ToggleDevTools => None,
    }
}

/// Builds the script that dispatches a custom event.
pub fn build_custom_event_script(name: &str, detail: &str) -> (script: String)
    ensures
        script@ == custom_event_script(name@, detail@),
{
    let mut script = String::from_str("window.dispatchEvent(new CustomEvent('");
    script.append(name);
    script.append("', { detail: ");
    script.append(detail);
    script.append(" }));");
    script
}

/// Builds the script that sends the page to `url`.
pub fn build_navigate_script(url: &str) -> (script: String)
    ensures
        script@ == navigate_script(url@),
{
    let mut script = String::from_str("window.location.href = '");
    script.append(url);
    script.append("';");
    script
}

impl ScriptEvent {
    /// The script to evaluate for this request, or `None` for the request to
    /// open the developer tools.
    pub fn script(self) -> (script: Option<String>)
        ensures
            script is Some <==> script_of(self) is Some,
            script matches Some(text) ==> script_of(self) == Some(text@),
    {
        match self {
            ScriptEvent::Raw(script) => Some(script),
            ScriptEvent::CustomEvent { name, detail } => Some(
                build_custom_event_script(name.as_str(), detail.as_str()),
            ),
            ScriptEvent::Reload => Some(String::from_str("window.location.reload();")),
            ScriptEvent::Navigate(url) => Some(build_navigate_script(url.as_str())),
            ScriptEvent::ToggleDevTools => None,
        }
    }
}

} // verus!
