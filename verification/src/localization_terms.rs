//! Column titles, graph labels and state names shown by the network and users pages.
use vstd::prelude::*;

use crate::localization::{table_text, text, UiLanguage};
use crate::strings::chars_of;
use crate::text_key::TextKey;

verus! {

broadcast use vstd::string::group_string_axioms;

/// Whether two strings hold the same characters.
pub fn str_eq(a: &str, b: &str) -> (r: bool)
    ensures
        r == (a@ == b@),
{
    let ca = chars_of(a);
    let cb = chars_of(b);
    if ca.len() != cb.len() {
        return false;
    }
    let mut i: usize = 0;
    while i < ca.len()
        invariant
            ca@ == a@,
            cb@ == b@,
            ca@.len() == cb@.len(),
            i <= ca@.len(),
            forall|k: int| 0 <= k < i ==> #[trigger] ca@[k] == cb@[k],
        decreases ca.len() - i,
    {
        if ca[i] != cb[i] {
            return false;
        }
        i += 1;
    }
    assert(ca@ =~= cb@);
    true
}

/// Titles of the users page's columns.
pub fn user_column_titles(language: UiLanguage) -> (r: [&'static str; 4])
    ensures
        r@ == seq![
            table_text(language, TextKey::User),
            table_text(language, TextKey::SessionId),
            table_text(language, TextKey::Status),
            table_text(language, TextKey::ClientName),
        ],
{
    let r = [
        text(language, TextKey::User),
        text(language, TextKey::SessionId),
        text(language, TextKey::Status),
        text(language, TextKey::ClientName),
    ];
    assert(r@ =~= seq![
        table_text(language, TextKey::User),
        table_text(language, TextKey::SessionId),
        table_text(language, TextKey::Status),
        table_text(language, TextKey::ClientName),
    ]);
    r
}

/// Title of the users page's session column.
pub fn user_session_column_title(language: UiLanguage) -> (r: &'static str)
    ensures
        r == table_text(language, TextKey::Session),
{
    text(language, TextKey::Session)
}

/// Titles of the network page's columns.
pub fn network_column_titles(language: UiLanguage) -> (r: [&'static str; 7])
    ensures
        r@ == seq![
            table_text(language, TextKey::Adapter),
            table_text(language, TextKey::NetworkUtilization),
            table_text(language, TextKey::LinkSpeed),
            table_text(language, TextKey::State),
            table_text(language, TextKey::BytesSent),
            table_text(language, TextKey::BytesReceived),
            table_text(language, TextKey::BytesTotal),
        ],
{
    let r = [
        text(language, TextKey::Adapter),
        text(language, TextKey::NetworkUtilization),
        text(language, TextKey::LinkSpeed),
        text(language, TextKey::State),
        text(language, TextKey::BytesSent),
        text(language, TextKey::BytesReceived),
        text(language, TextKey::BytesTotal),
    ];
    assert(r@ =~= seq![
        table_text(language, TextKey::Adapter),
        table_text(language, TextKey::NetworkUtilization),
        table_text(language, TextKey::LinkSpeed),
        table_text(language, TextKey::State),
        table_text(language, TextKey::BytesSent),
        table_text(language, TextKey::BytesReceived),
        table_text(language, TextKey::BytesTotal),
    ]);
    r
}

/// Legend of a network graph: total, received, sent.
pub fn network_graph_labels(language: UiLanguage) -> (r: [&'static str; 3])
    ensures
        r@ == seq![
            table_text(language, TextKey::Total),
            table_text(language, TextKey::Recv),
            table_text(language, TextKey::Sent),
        ],
{
    let r = [text(language, TextKey::Total), text(language, TextKey::Recv), text(language, TextKey::Sent)];
    assert(r@ =~= seq![
        table_text(language, TextKey::Total),
        table_text(language, TextKey::Recv),
        table_text(language, TextKey::Sent),
    ]);
    r
}

/// The text key of an adapter state named in English.
pub open spec fn spec_adapter_state_key(key: Seq<char>) -> TextKey {
    if key == "Connected"@ {
        TextKey::Connected
    } else if key == "Disconnected"@ {
        TextKey::Disconnected
    } else if key == "Connecting"@ {
        TextKey::Connecting
    } else if key == "Disconnecting"@ {
        TextKey::Disconnecting
    } else if key == "Hardware Missing"@ {
        TextKey::HardwareMissing
    } else if key == "Hardware Disabled"@ {
        TextKey::HardwareDisabled
    } else if key == "Hardware Malfunction"@ {
        TextKey::HardwareMalfunction
    } else {
        TextKey::Unknown
    }
}

/// The localized name of an adapter state named in English; unknown names read "Unknown".
pub fn adapter_state(language: UiLanguage, key: &str) -> (r: &'static str)
    ensures
        r == table_text(language, spec_adapter_state_key(key@)),
{
    let k = if str_eq(key, "Connected") {
        TextKey::Connected
    } else if str_eq(key, "Disconnected") {
        TextKey::Disconnected
    } else if str_eq(key, "Connecting") {
        TextKey::Connecting
    } else if str_eq(key, "Disconnecting") {
        TextKey::Disconnecting
    } else if str_eq(key, "Hardware Missing") {
        TextKey::HardwareMissing
    } else if str_eq(key, "Hardware Disabled") {
        TextKey::HardwareDisabled
    } else if str_eq(key, "Hardware Malfunction") {
        TextKey::HardwareMalfunction
    } else {
        TextKey::Unknown
    };
    text(language, k)
}

/// The text key of a session state named in English.
pub open spec fn spec_session_state_key(key: Seq<char>) -> TextKey {
    if key == "Active"@ {
        TextKey::Active
    } else if key == "Connected"@ {
        TextKey::Connected
    } else if key == "Connect Query"@ {
        TextKey::ConnectQuery
    } else if key == "Shadow"@ {
        TextKey::Shadow
    } else if key == "Disconnected"@ {
        TextKey::Disconnected
    } else if key == "Idle"@ {
        TextKey::Idle
    } else if key == "Listening"@ {
        TextKey::Listening
    } else if key == "Reset"@ {
        TextKey::Reset
    } else if key == "Down"@ {
        TextKey::Down
    } else if key == "Init"@ {
        TextKey::Init
    } else {
        TextKey::Unknown
    }
}

/// The localized name of a session state named in English; unknown names read "Unknown".
pub fn session_state(language: UiLanguage, key: &str) -> (r: &'static str)
    ensures
        r == table_text(language, spec_session_state_key(key@)),
{
    let k = if str_eq(key, "Active") {
        TextKey::Active
    } else if str_eq(key, "Connected") {
        TextKey::Connected
    } else if str_eq(key, "Connect Query") {
        TextKey::ConnectQuery
    } else if str_eq(key, "Shadow") {
        TextKey::Shadow
    } else if str_eq(key, "Disconnected") {
        TextKey::Disconnected
    } else if str_eq(key, "Idle") {
        TextKey::Idle
    } else if str_eq(key, "Listening") {
        TextKey::Listening
    } else if str_eq(key, "Reset") {
        TextKey::Reset
    } else if str_eq(key, "Down") {
        TextKey::Down
    } else if str_eq(key, "Init") {
        TextKey::Init
    } else {
        TextKey::Unknown
    };
    text(language, k)
}

} // verus!
