//! Users page: the rows of the session list, their order, and which commands the
//! selection allows.
use vstd::prelude::*;

use crate::localization::{table_text, text, UiLanguage};
use crate::localization_terms::{session_state, spec_session_state_key, str_eq};
use crate::procui::{page_layout_fits, ProcessPageLayout};
use crate::resource::{IDM_DISCONNECT, IDM_LOGOFF};
use crate::sort::{adjacent_sorted, insertion_sort, stable_rearrangement, RowOrder};
use crate::strings::{
    chars_of, compare_lowercase, compare_u64, decimal, decimal_chars, extend_chars, int_order,
    lemma_seq_order_antisymmetric, lowercase_order, str_lowercase, string_from_chars, SortOrder,
};
use crate::text_key::TextKey;
use crate::winutil::Rect;

verus! {

broadcast use vstd::string::group_string_axioms;

/// One row of the session list.
pub struct UserSessionEntry {
    pub session_id: u32,
    pub display_name: String,
    pub status: String,
    pub client_name: String,
    pub session_name: String,
    /// Its texts changed since the list last showed it.
    pub dirty: bool,
}

/// A session as the terminal services reported it.
pub struct RawSession {
    pub session_id: u32,
    pub user_name: String,
    pub domain_name: String,
    pub client_name: String,
    /// The connection state (`WTS_CONNECTSTATE_CLASS`).
    pub state: i32,
    pub station_name: String,
}

/// The English name of a connection state.
pub open spec fn spec_state_name(state: i32) -> Seq<char> {
    if state == 0 { "Active"@ }
    else if state == 1 { "Connected"@ }
    else if state == 2 { "Connect Query"@ }
    else if state == 3 { "Shadow"@ }
    else if state == 4 { "Disconnected"@ }
    else if state == 5 { "Idle"@ }
    else if state == 6 { "Listening"@ }
    else if state == 7 { "Reset"@ }
    else if state == 8 { "Down"@ }
    else if state == 9 { "Init"@ }
    else { "Unknown"@ }
}

/// The localized name of a connection state.
pub fn session_state_text(language: UiLanguage, state: i32) -> (r: String)
    ensures
        r@ == table_text(language, spec_session_state_key(spec_state_name(state)))@,
{
    let name = if state == 0 { "Active" }
        else if state == 1 { "Connected" }
        else if state == 2 { "Connect Query" }
        else if state == 3 { "Shadow" }
        else if state == 4 { "Disconnected" }
        else if state == 5 { "Idle" }
        else if state == 6 { "Listening" }
        else if state == 7 { "Reset" }
        else if state == 8 { "Down" }
        else if state == 9 { "Init" }
        else { "Unknown" };
    String::from_str(session_state(language, name))
}

/// The name a session is listed under: `domain\user` when domains are shown and known,
/// else the user.
pub open spec fn spec_display_name(raw: RawSession, show_domain_names: bool) -> Seq<char> {
    if raw.domain_name@.len() == 0 || !show_domain_names {
        raw.user_name@
    } else {
        raw.domain_name@ + seq!['\\'] + raw.user_name@
    }
}

/// The row a reported session makes, given the row of the same session before; sessions
/// without a user are not listed.
pub open spec fn spec_session_row(
    e: UserSessionEntry,
    language: UiLanguage,
    raw: RawSession,
    show_domain_names: bool,
    previous: Option<UserSessionEntry>,
) -> bool {
    &&& e.session_id == raw.session_id
    &&& e.display_name@ == spec_display_name(raw, show_domain_names)
    &&& e.status@ == table_text(language, spec_session_state_key(spec_state_name(raw.state)))@
    &&& e.client_name@ == (if raw.client_name@.len() == 0 { seq!['-'] } else { raw.client_name@ })
    &&& e.session_name@ == raw.station_name@
    &&& e.dirty == match previous {
        Some(p) => p.display_name@ != e.display_name@ || p.status@ != e.status@
            || p.client_name@ != e.client_name@ || p.session_name@ != e.session_name@,
        None => true,
    }
}

/// Makes the row of a reported session, or `None` for a session without a user.
pub fn build_session_entry(
    language: UiLanguage,
    raw: &RawSession,
    show_domain_names: bool,
    previous: Option<&UserSessionEntry>,
) -> (r: Option<UserSessionEntry>)
    ensures
        raw.user_name@.len() == 0 <==> r is None,
        r matches Some(e) ==> spec_session_row(e, language, *raw, show_domain_names, match previous { Some(p) => Some(*p), None => None }),
{
    if raw.user_name.unicode_len() == 0 {
        return None;
    }
    let display_name = if raw.domain_name.unicode_len() == 0 || !show_domain_names {
        raw.user_name.clone()
    } else {
        let mut out = chars_of(raw.domain_name.as_str());
        out.push('\\');
        let user = chars_of(raw.user_name.as_str());
        extend_chars(&mut out, &user);
        assert(out@ =~= raw.domain_name@ + seq!['\\'] + raw.user_name@);
        string_from_chars(&out)
    };
    let client_name = if raw.client_name.unicode_len() == 0 {
        let mut dash: Vec<char> = Vec::new();
        dash.push('-');
        assert(dash@ =~= seq!['-']);
        string_from_chars(&dash)
    } else {
        raw.client_name.clone()
    };
    let mut entry = UserSessionEntry {
        session_id: raw.session_id,
        display_name,
        status: session_state_text(language, raw.state),
        client_name,
        session_name: raw.station_name.clone(),
        dirty: true,
    };
    if let Some(p) = previous {
        entry.dirty = !str_eq(p.display_name.as_str(), entry.display_name.as_str())
            || !str_eq(p.status.as_str(), entry.status.as_str())
            || !str_eq(p.client_name.as_str(), entry.client_name.as_str())
            || !str_eq(p.session_name.as_str(), entry.session_name.as_str());
    }
    Some(entry)
}

/// Index of the last earlier row of session `session_id`.
pub fn find_previous_session(previous: &Vec<UserSessionEntry>, session_id: u32) -> (r: Option<usize>)
    ensures
        match r {
            Some(i) => i < previous@.len() && previous@[i as int].session_id == session_id
                && forall|k: int| i < k < previous@.len() ==> #[trigger] previous@[k].session_id != session_id,
            None => forall|k: int| 0 <= k < previous@.len() ==> #[trigger] previous@[k].session_id != session_id,
        },
{
    let mut n = previous.len();
    while n > 0
        invariant
            n <= previous@.len(),
            forall|k: int| n <= k < previous@.len() ==> #[trigger] previous@[k].session_id != session_id,
        decreases n,
    {
        if previous[n - 1].session_id == session_id {
            return Some(n - 1);
        }
        n -= 1;
    }
    None
}

/// Ascending order of two rows by a column: 1 the session id, 2 the status, 3 the
/// client, 4 the session name, any other the user; texts case-insensitively.
pub open spec fn spec_session_column_order(l: UserSessionEntry, r: UserSessionEntry, sort_column: usize) -> SortOrder {
    if sort_column == 1 {
        int_order(l.session_id as int, r.session_id as int)
    } else if sort_column == 2 {
        lowercase_order(l.status@, r.status@)
    } else if sort_column == 3 {
        lowercase_order(l.client_name@, r.client_name@)
    } else if sort_column == 4 {
        lowercase_order(l.session_name@, r.session_name@)
    } else {
        lowercase_order(l.display_name@, r.display_name@)
    }
}

/// How two session rows are ordered.
pub open spec fn spec_compare_user_sessions(l: UserSessionEntry, r: UserSessionEntry, sort_column: usize, sort_ascending: bool) -> SortOrder {
    let o = spec_session_column_order(l, r, sort_column);
    if sort_ascending { o } else { o.spec_reverse() }
}

/// Compares two session rows.
pub fn compare_user_sessions(left: &UserSessionEntry, right: &UserSessionEntry, sort_column: usize, sort_ascending: bool) -> (r: SortOrder)
    ensures
        r == spec_compare_user_sessions(*left, *right, sort_column, sort_ascending),
{
    let ordering = if sort_column == 1 {
        compare_u64(left.session_id as u64, right.session_id as u64)
    } else if sort_column == 2 {
        compare_lowercase(left.status.as_str(), right.status.as_str())
    } else if sort_column == 3 {
        compare_lowercase(left.client_name.as_str(), right.client_name.as_str())
    } else if sort_column == 4 {
        compare_lowercase(left.session_name.as_str(), right.session_name.as_str())
    } else {
        compare_lowercase(left.display_name.as_str(), right.display_name.as_str())
    };
    if sort_ascending { ordering } else { ordering.reverse() }
}

/// Comparing two session rows the other way round gives the opposite answer.
pub proof fn lemma_compare_user_sessions_antisymmetric(l: UserSessionEntry, r: UserSessionEntry, sort_column: usize, sort_ascending: bool)
    ensures
        spec_compare_user_sessions(r, l, sort_column, sort_ascending)
            == spec_compare_user_sessions(l, r, sort_column, sort_ascending).spec_reverse(),
{
    if sort_column == 2 {
        lemma_seq_order_antisymmetric(str_lowercase(l.status@), str_lowercase(r.status@));
    } else if sort_column == 3 {
        lemma_seq_order_antisymmetric(str_lowercase(l.client_name@), str_lowercase(r.client_name@));
    } else if sort_column == 4 {
        lemma_seq_order_antisymmetric(str_lowercase(l.session_name@), str_lowercase(r.session_name@));
    } else if sort_column != 1 {
        lemma_seq_order_antisymmetric(str_lowercase(l.display_name@), str_lowercase(r.display_name@));
    }
}

/// The session-list order for one column and direction.
pub struct SessionRowOrder {
    pub sort_column: usize,
    pub sort_ascending: bool,
}

impl RowOrder<UserSessionEntry> for SessionRowOrder {
    open spec fn spec_order(&self, a: UserSessionEntry, b: UserSessionEntry) -> SortOrder {
        spec_compare_user_sessions(a, b, self.sort_column, self.sort_ascending)
    }

    fn order(&self, a: &UserSessionEntry, b: &UserSessionEntry) -> (r: SortOrder) {
        compare_user_sessions(a, b, self.sort_column, self.sort_ascending)
    }

    proof fn lemma_antisymmetric(&self, a: UserSessionEntry, b: UserSessionEntry) {
        lemma_compare_user_sessions_antisymmetric(a, b, self.sort_column, self.sort_ascending);
    }
}

/// Sorts the session rows: the same rows, none ordered after the one that follows it,
/// and rows that compare equal keep their relative order.
pub fn sort_sessions(sessions: &mut Vec<UserSessionEntry>, sort_column: usize, sort_ascending: bool)
    ensures
        final(sessions)@.to_multiset() == old(sessions)@.to_multiset(),
        final(sessions)@.len() == old(sessions)@.len(),
        forall|i: int| 0 <= i < final(sessions)@.len() - 1 ==> #[trigger] spec_compare_user_sessions(
            final(sessions)@[i], final(sessions)@[i + 1], sort_column, sort_ascending) != SortOrder::Greater,
        stable_rearrangement(
            |a: UserSessionEntry, b: UserSessionEntry| spec_compare_user_sessions(a, b, sort_column, sort_ascending),
            old(sessions)@,
            final(sessions)@,
        ),
{
    let order = SessionRowOrder { sort_column, sort_ascending };
    insertion_sort(&order, sessions);
    proof {
        assert((|a: UserSessionEntry, b: UserSessionEntry| order.spec_order(a, b)) =~= (|a: UserSessionEntry, b: UserSessionEntry| spec_compare_user_sessions(a, b, sort_column, sort_ascending)));
        assert(adjacent_sorted(&order, sessions@));
        assert forall|i: int| 0 <= i < sessions@.len() - 1 implies #[trigger] spec_compare_user_sessions(
            sessions@[i], sessions@[i + 1], sort_column, sort_ascending) != SortOrder::Greater by {
            assert(order.spec_order(sessions@[i], sessions@[i + 1]) != SortOrder::Greater);
        }
    }
}

/// The row a session had before: the last one with its id.
pub open spec fn spec_previous_session(previous: Seq<UserSessionEntry>, session_id: u32) -> Option<UserSessionEntry>
    decreases previous.len(),
{
    if previous.len() == 0 {
        None
    } else if previous.last().session_id == session_id {
        Some(previous.last())
    } else {
        spec_previous_session(previous.drop_last(), session_id)
    }
}

proof fn lemma_previous_session_found(previous: Seq<UserSessionEntry>, session_id: u32, i: int)
    requires
        0 <= i < previous.len(),
        previous[i].session_id == session_id,
        forall|k: int| i < k < previous.len() ==> #[trigger] previous[k].session_id != session_id,
    ensures
        spec_previous_session(previous, session_id) == Some(previous[i]),
    decreases previous.len(),
{
    if i < previous.len() - 1 {
        assert(previous.last().session_id != session_id);
        lemma_previous_session_found(previous.drop_last(), session_id, i);
    }
}

proof fn lemma_previous_session_absent(previous: Seq<UserSessionEntry>, session_id: u32)
    requires
        forall|k: int| 0 <= k < previous.len() ==> #[trigger] previous[k].session_id != session_id,
    ensures
        spec_previous_session(previous, session_id) is None,
    decreases previous.len(),
{
    if previous.len() > 0 {
        assert(previous.last().session_id != session_id);
        lemma_previous_session_absent(previous.drop_last(), session_id);
    }
}

/// The sessions that are listed: those with a user, in the order reported.
pub open spec fn listed_sessions(raws: Seq<RawSession>) -> Seq<RawSession> {
    raws.filter(|s: RawSession| s.user_name@.len() > 0)
}

/// `rows` are the rows of the sessions `listed`, in that order, each compared with the
/// row its session had before.
pub open spec fn rows_of_sessions(
    rows: Seq<UserSessionEntry>,
    language: UiLanguage,
    listed: Seq<RawSession>,
    show_domain_names: bool,
    previous: Seq<UserSessionEntry>,
) -> bool {
    &&& rows.len() == listed.len()
    &&& forall|k: int| 0 <= k < rows.len() ==> #[trigger] spec_session_row(
        rows[k],
        language,
        listed[k],
        show_domain_names,
        spec_previous_session(previous, listed[k].session_id),
    )
}

/// One refresh of the users page: a row for each reported session with a user, marked
/// dirty where it differs from the session's row before, then sorted by the column and
/// direction, rows that compare equal keeping the order in which they were reported.
pub fn refresh_sessions(
    language: UiLanguage,
    raws: &Vec<RawSession>,
    previous: &Vec<UserSessionEntry>,
    show_domain_names: bool,
    sort_column: usize,
    sort_ascending: bool,
) -> (r: Vec<UserSessionEntry>)
    ensures
        exists|built: Seq<UserSessionEntry>|
            #[trigger] rows_of_sessions(built, language, listed_sessions(raws@), show_domain_names, previous@)
                && stable_rearrangement(
                    |a: UserSessionEntry, b: UserSessionEntry| spec_compare_user_sessions(a, b, sort_column, sort_ascending),
                    built,
                    r@,
                ),
        forall|i: int| 0 <= i < r@.len() - 1 ==> #[trigger] spec_compare_user_sessions(
            r@[i], r@[i + 1], sort_column, sort_ascending) != SortOrder::Greater,
{
    let mut rows: Vec<UserSessionEntry> = Vec::new();
    let mut i: usize = 0;
    while i < raws.len()
        invariant
            i <= raws@.len(),
            rows_of_sessions(rows@, language, listed_sessions(raws@.subrange(0, i as int)), show_domain_names, previous@),
        decreases raws.len() - i,
    {
        let found = find_previous_session(previous, raws[i].session_id);
        let before: Option<&UserSessionEntry> = match found {
            Some(j) => Some(&previous[j]),
            None => None,
        };
        proof {
            match found {
                Some(j) => lemma_previous_session_found(previous@, raws@[i as int].session_id, j as int),
                None => lemma_previous_session_absent(previous@, raws@[i as int].session_id),
            }
        }
        let ghost listed_before = listed_sessions(raws@.subrange(0, i as int));
        let ghost rows_before = rows@;
        let row = build_session_entry(language, &raws[i], show_domain_names, before);
        match row {
            Some(row) => rows.push(row),
            None => {}
        }
        proof {
            let prefix = raws@.subrange(0, i + 1);
            assert(prefix.drop_last() =~= raws@.subrange(0, i as int));
            assert(prefix.last() == raws@[i as int]);
            reveal(Seq::filter);
            let listed_now = listed_sessions(prefix);
            assert forall|k: int| 0 <= k < rows@.len() implies #[trigger] spec_session_row(
                rows@[k],
                language,
                listed_now[k],
                show_domain_names,
                spec_previous_session(previous@, listed_now[k].session_id),
            ) by {
                if k < rows_before.len() {
                    assert(rows@[k] == rows_before[k]);
                    assert(listed_now[k] == listed_before[k]);
                }
            }
        }
        i += 1;
    }
    proof {
        assert(raws@.subrange(0, raws@.len() as int) =~= raws@);
    }
    let ghost built = rows@;
    sort_sessions(&mut rows, sort_column, sort_ascending);
    proof {
        assert(rows_of_sessions(built, language, listed_sessions(raws@), show_domain_names, previous@));
    }
    rows
}

/// The sort after a header click: the same column turns the direction around; another
/// column sorts by it, ascending.
pub fn next_user_sort(sort_column: usize, sort_ascending: bool, sub_item: i32) -> (r: (usize, bool))
    ensures
        ({
            let column = if sub_item > 0 { sub_item as usize } else { 0usize };
            r == (if column == sort_column { (sort_column, !sort_ascending) } else { (column, true) })
        }),
{
    let column: usize = if sub_item > 0 { sub_item as usize } else { 0 };
    if column == sort_column {
        (sort_column, !sort_ascending)
    } else {
        (column, true)
    }
}

/// Which commands the selection allows: sending a message (not to one's own session
/// alone), disconnecting (no selected session already disconnected), logging off.
#[derive(Clone, Copy, PartialEq, Eq, Structural, Debug)]
pub struct SessionActions {
    pub send_enabled: bool,
    pub disconnect_enabled: bool,
    pub logoff_enabled: bool,
}

/// Whether a listed session with this id is disconnected, by its shown status.
pub open spec fn spec_selected_disconnected(sessions: Seq<UserSessionEntry>, id: u32, disconnected: Seq<char>) -> bool {
    exists|k: int| 0 <= k < sessions.len() && #[trigger] sessions[k].session_id == id
        && (forall|m: int| 0 <= m < k ==> #[trigger] sessions[m].session_id != id)
        && sessions[k].status@ == disconnected
}

/// Whether a session with this id is listed.
pub open spec fn spec_listed(sessions: Seq<UserSessionEntry>, id: u32) -> bool {
    exists|k: int| 0 <= k < sessions.len() && #[trigger] sessions[k].session_id == id
}

fn first_session(sessions: &Vec<UserSessionEntry>, id: u32) -> (r: Option<usize>)
    ensures
        match r {
            Some(i) => i < sessions@.len() && sessions@[i as int].session_id == id
                && forall|m: int| 0 <= m < i ==> #[trigger] sessions@[m].session_id != id,
            None => forall|m: int| 0 <= m < sessions@.len() ==> #[trigger] sessions@[m].session_id != id,
        },
{
    let mut i: usize = 0;
    while i < sessions.len()
        invariant
            i <= sessions@.len(),
            forall|m: int| 0 <= m < i ==> #[trigger] sessions@[m].session_id != id,
        decreases sessions.len() - i,
    {
        if sessions[i].session_id == id {
            return Some(i);
        }
        i += 1;
    }
    None
}

/// The commands the selected sessions allow.
pub fn session_actions(
    language: UiLanguage,
    selected: &Vec<u32>,
    sessions: &Vec<UserSessionEntry>,
    selected_session_id: Option<u32>,
) -> (r: SessionActions)
    ensures
        ({
            let disconnected = table_text(language, TextKey::Disconnected)@;
            let any = selected@.len() > 0;
            &&& r.logoff_enabled == any
            &&& r.disconnect_enabled == (any && forall|j: int| 0 <= j < selected@.len()
                ==> !spec_selected_disconnected(sessions@, #[trigger] selected@[j], disconnected))
            &&& r.send_enabled == (any && !(selected@.len() == 1 && selected_session_id == Some(selected@[0])
                && spec_listed(sessions@, selected@[0])))
        }),
{
    let disconnected = session_state(language, "Disconnected");
    proof {
        reveal_strlit("Disconnected");
        reveal_strlit("Active");
        reveal_strlit("Connected");
        reveal_strlit("Connect Query");
        reveal_strlit("Shadow");
        assert("Disconnected"@.len() == 12 && "Active"@.len() == 6 && "Connected"@.len() == 9);
        assert("Connect Query"@.len() == 13 && "Shadow"@.len() == 6);
        assert(spec_session_state_key("Disconnected"@) == TextKey::Disconnected);
    }
    let any = selected.len() > 0;
    let mut send_enabled = any;
    let mut disconnect_enabled = any;
    let mut j: usize = 0;
    while j < selected.len()
        invariant
            j <= selected@.len(),
            disconnected@ == table_text(language, TextKey::Disconnected)@,
            any == (selected@.len() > 0),
            disconnect_enabled == (any && forall|i: int| 0 <= i < j
                ==> !spec_selected_disconnected(sessions@, #[trigger] selected@[i], disconnected@)),
            send_enabled == (any && !(j > 0 && selected@.len() == 1 && selected_session_id == Some(selected@[0])
                && spec_listed(sessions@, selected@[0]))),
        decreases selected.len() - j,
    {
        let id = selected[j];
        match first_session(sessions, id) {
            Some(k) => {
                if str_eq(sessions[k].status.as_str(), disconnected) {
                    disconnect_enabled = false;
                }
                if selected_session_id == Some(id) && selected.len() == 1 {
                    send_enabled = false;
                }
                proof {
                    assert(spec_listed(sessions@, id));
                }
            },
            None => {
                proof {
                    assert(!spec_selected_disconnected(sessions@, id, disconnected@));
                    assert(!spec_listed(sessions@, id));
                }
            },
        }
        j += 1;
    }
    SessionActions { send_enabled, disconnect_enabled, logoff_enabled: any }
}

/// The question asked before logging off or disconnecting the selected sessions.
pub fn session_prompt(language: UiLanguage, command_id: u16) -> (r: &'static str)
    ensures
        r == table_text(language, if command_id == IDM_LOGOFF { TextKey::ConfirmLogoffSelectedUsers } else { TextKey::ConfirmDisconnectSelectedUsers }),
{
    if command_id == IDM_LOGOFF {
        text(language, TextKey::ConfirmLogoffSelectedUsers)
    } else {
        text(language, TextKey::ConfirmDisconnectSelectedUsers)
    }
}

/// The failure message of a session command.
pub fn session_failure(language: UiLanguage, command_id: u16) -> (r: &'static str)
    ensures
        r == table_text(language, if command_id == IDM_LOGOFF { TextKey::SelectedUserCouldNotBeLoggedOff } else { TextKey::SelectedUserCouldNotBeDisconnected }),
{
    if command_id == IDM_LOGOFF {
        text(language, TextKey::SelectedUserCouldNotBeLoggedOff)
    } else {
        text(language, TextKey::SelectedUserCouldNotBeDisconnected)
    }
}

/// The text of a failure: the message alone without an error code, else the message, a
/// blank line and the localized error prefix with the code.
pub fn command_failure_text(language: UiLanguage, message: &str, last_error: u32) -> (r: String)
    ensures
        r@ == (if last_error == 0 {
            message@
        } else {
            message@ + seq!['\n', '\n'] + table_text(language, TextKey::Win32ErrorPrefix)@ + seq![' '] + decimal(last_error as nat)
        }),
{
    let mut out = chars_of(message);
    if last_error != 0 {
        out.push('\n');
        out.push('\n');
        let prefix = chars_of(text(language, TextKey::Win32ErrorPrefix));
        extend_chars(&mut out, &prefix);
        out.push(' ');
        let digits = decimal_chars(last_error as u64);
        extend_chars(&mut out, &digits);
    }
    string_from_chars(&out)
}

/// Whether a session command is one that changes sessions (log off or disconnect).
pub fn is_session_state_command(command_id: u16) -> (r: bool)
    ensures
        r == (command_id == IDM_LOGOFF || command_id == IDM_DISCONNECT),
{
    command_id == IDM_LOGOFF || command_id == IDM_DISCONNECT
}

/// Lays out the users page in its client rectangle, given where the send-message button
/// (by which the buttons are aligned) and the list are now and the page's spacing: the
/// buttons keep two spacings to the bottom right corner, and the list fills the space
/// above them, a spacing clear of the buttons.
pub fn user_page_layout(parent: &Rect, master: &Rect, list: &Rect, def_spacing: i32) -> (r: ProcessPageLayout)
    requires
        0 <= def_spacing <= 0x1_0000,
        page_layout_fits(*parent, *master, *list, def_spacing as int),
    ensures
        ({
            let dx = parent.right - def_spacing * 2 - master.right;
            let dy = parent.bottom - def_spacing * 2 - master.bottom;
            let w = master.right - list.left + dx;
            let h = master.top - list.top + dy - def_spacing;
            &&& r.button_x == master.left + dx
            &&& r.button_y == master.top + dy
            &&& r.list_width == (if w > 0 { w } else { 0 })
            &&& r.list_height == (if h > 0 { h } else { 0 })
        }),
{
    let dx = (parent.right - def_spacing * 2) - master.right;
    let dy = (parent.bottom - def_spacing * 2) - master.bottom;
    let w = master.right - list.left + dx;
    let h = master.top - list.top + dy - def_spacing;
    ProcessPageLayout {
        button_x: master.left + dx,
        button_y: master.top + dy,
        list_width: if w > 0 { w } else { 0 },
        list_height: if h > 0 { h } else { 0 },
    }
}


/// Each column of the users page sorts by its own value: column 1 by session id, 2 by
/// status, 3 by client name, 4 by session name and any other by user name, texts without
/// regard to case; a descending sort compares the rows the other way round.
pub proof fn lemma_session_columns_sort_by_their_values(l: UserSessionEntry, r: UserSessionEntry)
    ensures
        l.session_id != r.session_id ==> spec_compare_user_sessions(l, r, 1, true)
            == (if l.session_id < r.session_id { SortOrder::Less } else { SortOrder::Greater }),
        l.session_id != r.session_id ==> spec_compare_user_sessions(l, r, 1, false)
            == (if l.session_id < r.session_id { SortOrder::Greater } else { SortOrder::Less }),
        spec_compare_user_sessions(l, r, 2, true) == lowercase_order(l.status@, r.status@),
        spec_compare_user_sessions(l, r, 2, false) == lowercase_order(r.status@, l.status@),
        spec_compare_user_sessions(l, r, 3, true) == lowercase_order(l.client_name@, r.client_name@),
        spec_compare_user_sessions(l, r, 3, false) == lowercase_order(r.client_name@, l.client_name@),
        spec_compare_user_sessions(l, r, 4, true) == lowercase_order(l.session_name@, r.session_name@),
        spec_compare_user_sessions(l, r, 4, false) == lowercase_order(r.session_name@, l.session_name@),
        forall|c: usize| (c == 0 || c >= 5) ==> #[trigger] spec_compare_user_sessions(l, r, c, true) == lowercase_order(l.display_name@, r.display_name@),
        forall|c: usize| (c == 0 || c >= 5) ==> #[trigger] spec_compare_user_sessions(l, r, c, false) == lowercase_order(r.display_name@, l.display_name@),
{
    lemma_seq_order_antisymmetric(str_lowercase(l.status@), str_lowercase(r.status@));
    lemma_seq_order_antisymmetric(str_lowercase(l.client_name@), str_lowercase(r.client_name@));
    lemma_seq_order_antisymmetric(str_lowercase(l.session_name@), str_lowercase(r.session_name@));
    lemma_seq_order_antisymmetric(str_lowercase(l.display_name@), str_lowercase(r.display_name@));
}

} // verus!
