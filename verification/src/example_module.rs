//! The example module that ships with the host: how it announces itself and
//! how it answers commands.

use vstd::prelude::*;
use crate::module::UiComponent;
use crate::protocol::{Command, RegisterRequest, Response};
use crate::text::{concat2, owned};

verus! {

/// The JSON object with the single entry `key`, whose value is the string
/// `value`.
pub uninterp spec fn json_string_object(key: Seq<char>, value: Seq<char>) -> serde_json::Value;

/// Builds, with `serde_json::Value::from_iter` on one pair, the JSON object
/// whose single entry maps `key` to the string `value`; the object depends on
/// the two texts alone.
#[verifier::external_body]
fn string_entry_object(key: &str, value: &str) -> (v: serde_json::Value)
    ensures
        v == json_string_object(key@, value@),
{
    serde_json::Value::from_iter([(key.to_string(), value.to_string())])
}

/// One interface component.
fn component(name: &str, component_type: &str, endpoint: &str) -> (res: UiComponent)
    ensures
        res.name@ == name@,
        res.component_type@ == component_type@,
        res.endpoint@ == endpoint@,
{
    UiComponent { name: owned(name), component_type: owned(component_type), endpoint: owned(endpoint) }
}

/// How the example module registers under `name`: version `0.1.0`, the
/// capabilities `ping` and `metrics`, a status panel and a metric chart.
pub fn registration(name: String) -> (res: RegisterRequest)
    ensures
        res.name@ == name@,
        res.version@ == "0.1.0"@,
        res.capabilities@.len() == 2,
        res.capabilities@[0]@ == "ping"@,
        res.capabilities@[1]@ == "metrics"@,
        res.ui_components@.len() == 2,
        res.ui_components@[0].name@ == "status_panel"@,
        res.ui_components@[0].component_type@ == "panel"@,
        res.ui_components@[0].endpoint@ == "/ui/status"@,
        res.ui_components@[1].name@ == "metric_chart"@,
        res.ui_components@[1].component_type@ == "chart"@,
        res.ui_components@[1].endpoint@ == "/ui/chart"@,
{
    let mut capabilities: Vec<String> = Vec::new();
    capabilities.push(owned("ping"));
    capabilities.push(owned("metrics"));
    let mut ui_components: Vec<UiComponent> = Vec::new();
    ui_components.push(component("status_panel", "panel", "/ui/status"));
    ui_components.push(component("metric_chart", "chart", "/ui/chart"));
    RegisterRequest { name, version: owned("0.1.0"), capabilities, ui_components }
}

/// The example module's answer to a command: `ping` succeeds with `pong`
/// and the data `{"reply": "pong_data"}`; any other action fails as unknown.
pub fn respond(cmd: Command) -> (res: Response)
    ensures
        res.id == cmd.id,
        cmd.action@ == "ping"@ ==> {
            &&& res.success
            &&& res.message@ == "pong"@
            &&& res.data == Some(json_string_object("reply"@, "pong_data"@))
        },
        cmd.action@ != "ping"@ ==> {
            &&& !res.success
            &&& res.message@ == "Unknown action: "@ + cmd.action@
            &&& res.data is None
        },
{
    let ping = owned("ping");
    if cmd.action == ping {
        Response {
            id: cmd.id,
            success: true,
            message: owned("pong"),
            data: Some(string_entry_object("reply", "pong_data")),
        }
    } else {
        let message = concat2("Unknown action: ", cmd.action.as_str());
        Response { id: cmd.id, success: false, message, data: None }
    }
}

} // verus!
