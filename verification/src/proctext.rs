//! Text of the process page: what each cell of the list shows, the loaded message
//! strings, and the parsing of names and command lines that the page reads.
use vstd::prelude::*;

use crate::localization::{table_text, UiLanguage};
use crate::procpage::{
    ColumnId, ProcEntry, HIGH_PRIORITY_CLASS, IDLE_PRIORITY_CLASS, NORMAL_PRIORITY_CLASS,
    REALTIME_PRIORITY_CLASS,
};
use crate::resource::{
    IDS_CANTCHANGEPRI, IDS_CANTDEBUG, IDS_CANTKILL, IDS_CANTSETAFFINITY, IDS_DEBUG, IDS_HIGH,
    IDS_INVALIDOPTION, IDS_KILL, IDS_LOW, IDS_NOAFFINITYMASK, IDS_NORMAL, IDS_PRICHANGE,
    IDS_REALTIME, IDS_UNKNOWN, IDS_WARNING,
};
use crate::strings::{
    all_digits, chars_of, decimal, decimal_chars, decimal_value, digit_value, extend_chars, lemma_decimal_reads_back,
    lemma_leading_zero, lemma_signed_decimal_reads_back, signed_value, is_unicode_whitespace, is_whitespace, pad_left,
    pad_left_chars, signed_decimal, signed_decimal_chars, spec_trim, string_from_chars, trim_chars,
};
use crate::text_key::TextKey;
use crate::winutil::{
    append_32_bit_suffix, decode_utf16_lossy, lemma_utf16_round_trip, load_string, spec_load_string, utf16_lossy,
    utf16_of_char, utf16_units,
};

verus! {

broadcast use vstd::string::group_string_axioms;

/// `{:02} %`: a CPU share, zero-padded to two digits.
pub open spec fn spec_cpu_text(cpu: u8) -> Seq<char> {
    pad_left(decimal(cpu as nat), 2, '0') + seq![' ', '%']
}

/// The hours, minutes and seconds of a span of 100-ns units, as `{h:2}:{m:02}:{s:02}`.
pub open spec fn spec_elapsed_time(total_100ns: u64) -> Seq<char> {
    let total_seconds = total_100ns / 10_000_000;
    let hours = total_seconds / 3600;
    let minutes = (total_seconds % 3600) / 60;
    let seconds = total_seconds % 60;
    pad_left(decimal(hours as nat), 2, ' ') + seq![':'] + pad_left(decimal(minutes as nat), 2, '0')
        + seq![':'] + pad_left(decimal(seconds as nat), 2, '0')
}

/// Formats a CPU time as hours, minutes and seconds.
pub fn format_elapsed_time(total_100ns: u64) -> (r: String)
    ensures
        r@ == spec_elapsed_time(total_100ns),
{
    let total_seconds = total_100ns / 10_000_000;
    let hours = total_seconds / 3600;
    let minutes = (total_seconds % 3600) / 60;
    let seconds = total_seconds % 60;
    let mut out = pad_left_chars(decimal_chars(hours), 2, ' ');
    out.push(':');
    let m = pad_left_chars(decimal_chars(minutes), 2, '0');
    extend_chars(&mut out, &m);
    out.push(':');
    let s = pad_left_chars(decimal_chars(seconds), 2, '0');
    extend_chars(&mut out, &s);
    string_from_chars(&out)
}

/// `{value} K`.
pub fn format_kilobytes(value: u32) -> (r: String)
    ensures
        r@ == decimal(value as nat) + seq![' ', 'K'],
{
    let mut out = decimal_chars(value as u64);
    out.push(' ');
    out.push('K');
    string_from_chars(&out)
}

/// `{value} K` for a signed difference.
pub fn format_signed_kilobytes(value: i64) -> (r: String)
    ensures
        r@ == signed_decimal(value as int) + seq![' ', 'K'],
{
    let mut out = signed_decimal_chars(value);
    out.push(' ');
    out.push('K');
    string_from_chars(&out)
}

/// The message and label strings of the process page, loaded once.
pub struct ProcessStrings {
    pub warning: String,
    pub invalid_option: String,
    pub no_affinity_mask: String,
    pub kill: String,
    pub debug: String,
    pub prichange: String,
    pub cant_kill: String,
    pub cant_debug: String,
    pub cant_change_priority: String,
    pub cant_set_affinity: String,
    pub priority_low: String,
    pub priority_normal: String,
    pub priority_high: String,
    pub priority_realtime: String,
    pub priority_unknown: String,
}

impl ProcessStrings {
    /// Each string is the resource of its own number in `language`.
    pub open spec fn loaded_for(&self, language: UiLanguage) -> bool {
        &&& self.warning@ == spec_load_string(language, IDS_WARNING)
        &&& self.invalid_option@ == spec_load_string(language, IDS_INVALIDOPTION)
        &&& self.no_affinity_mask@ == spec_load_string(language, IDS_NOAFFINITYMASK)
        &&& self.kill@ == spec_load_string(language, IDS_KILL)
        &&& self.debug@ == spec_load_string(language, IDS_DEBUG)
        &&& self.prichange@ == spec_load_string(language, IDS_PRICHANGE)
        &&& self.cant_kill@ == spec_load_string(language, IDS_CANTKILL)
        &&& self.cant_debug@ == spec_load_string(language, IDS_CANTDEBUG)
        &&& self.cant_change_priority@ == spec_load_string(language, IDS_CANTCHANGEPRI)
        &&& self.cant_set_affinity@ == spec_load_string(language, IDS_CANTSETAFFINITY)
        &&& self.priority_low@ == spec_load_string(language, IDS_LOW)
        &&& self.priority_normal@ == spec_load_string(language, IDS_NORMAL)
        &&& self.priority_high@ == spec_load_string(language, IDS_HIGH)
        &&& self.priority_realtime@ == spec_load_string(language, IDS_REALTIME)
        &&& self.priority_unknown@ == spec_load_string(language, IDS_UNKNOWN)
    }

    /// Loads every string of the page in `language`.
    pub fn load(language: UiLanguage) -> (r: Self)
        ensures
            r.loaded_for(language),
    {
        ProcessStrings {
            warning: load_string(language, IDS_WARNING),
            invalid_option: load_string(language, IDS_INVALIDOPTION),
            no_affinity_mask: load_string(language, IDS_NOAFFINITYMASK),
            kill: load_string(language, IDS_KILL),
            debug: load_string(language, IDS_DEBUG),
            prichange: load_string(language, IDS_PRICHANGE),
            cant_kill: load_string(language, IDS_CANTKILL),
            cant_debug: load_string(language, IDS_CANTDEBUG),
            cant_change_priority: load_string(language, IDS_CANTCHANGEPRI),
            cant_set_affinity: load_string(language, IDS_CANTSETAFFINITY),
            priority_low: load_string(language, IDS_LOW),
            priority_normal: load_string(language, IDS_NORMAL),
            priority_high: load_string(language, IDS_HIGH),
            priority_realtime: load_string(language, IDS_REALTIME),
            priority_unknown: load_string(language, IDS_UNKNOWN),
        }
    }

    /// The label of a priority class.
    pub open spec fn spec_priority_label(&self, priority_class: u32) -> Seq<char> {
        if priority_class == IDLE_PRIORITY_CLASS {
            self.priority_low@
        } else if priority_class == HIGH_PRIORITY_CLASS {
            self.priority_high@
        } else if priority_class == REALTIME_PRIORITY_CLASS {
            self.priority_realtime@
        } else if priority_class == NORMAL_PRIORITY_CLASS {
            self.priority_normal@
        } else {
            self.priority_unknown@
        }
    }

    /// The label of a priority class.
    pub fn priority_label(&self, priority_class: u32) -> (r: String)
        ensures
            r@ == self.spec_priority_label(priority_class),
    {
        if priority_class == IDLE_PRIORITY_CLASS {
            self.priority_low.clone()
        } else if priority_class == HIGH_PRIORITY_CLASS {
            self.priority_high.clone()
        } else if priority_class == REALTIME_PRIORITY_CLASS {
            self.priority_realtime.clone()
        } else if priority_class == NORMAL_PRIORITY_CLASS {
            self.priority_normal.clone()
        } else {
            self.priority_unknown.clone()
        }
    }
}

/// The text of one cell of the process list.
pub open spec fn spec_column_text(
    language: UiLanguage,
    entry: ProcEntry,
    column_id: ColumnId,
    strings: ProcessStrings,
) -> Seq<char> {
    match column_id {
        ColumnId::ImageName => if entry.is_32_bit {
            entry.image_name@ + seq![' '] + table_text(language, TextKey::Bitness32Suffix)@
        } else {
            entry.image_name@
        },
        ColumnId::Pid => decimal(entry.pid as nat),
        ColumnId::Username => entry.user_name@,
        ColumnId::SessionId => decimal(entry.session_id as nat),
        ColumnId::Cpu => spec_cpu_text(entry.cpu),
        ColumnId::CpuTime => spec_elapsed_time(entry.display_cpu_time_100ns),
        ColumnId::MemUsage => decimal(entry.mem_usage_kb as nat) + seq![' ', 'K'],
        ColumnId::MemUsageDiff => signed_decimal(entry.mem_diff_kb as int) + seq![' ', 'K'],
        ColumnId::PageFaults => decimal(entry.page_faults as nat),
        ColumnId::PageFaultsDiff => signed_decimal(entry.page_faults_diff as int),
        ColumnId::CommitCharge => decimal(entry.commit_charge_kb as nat) + seq![' ', 'K'],
        ColumnId::PagedPool => decimal(entry.paged_pool_kb as nat) + seq![' ', 'K'],
        ColumnId::NonPagedPool => decimal(entry.nonpaged_pool_kb as nat) + seq![' ', 'K'],
        ColumnId::BasePriority => strings.spec_priority_label(entry.priority_class),
        ColumnId::HandleCount => decimal(entry.handle_count as nat),
        ColumnId::ThreadCount => decimal(entry.thread_count as nat),
    }
}

fn decimal_text(n: u64) -> (r: String)
    ensures
        r@ == decimal(n as nat),
{
    string_from_chars(&decimal_chars(n))
}

/// Renders one cell of the process list.
pub fn column_text(language: UiLanguage, entry: &ProcEntry, column_id: ColumnId, strings: &ProcessStrings) -> (r: String)
    ensures
        r@ == spec_column_text(language, *entry, column_id, *strings),
{
    match column_id {
        ColumnId::ImageName => append_32_bit_suffix(language, entry.image_name.as_str(), entry.is_32_bit),
        ColumnId::Pid => decimal_text(entry.pid as u64),
        ColumnId::Username => entry.user_name.clone(),
        ColumnId::SessionId => decimal_text(entry.session_id as u64),
        ColumnId::Cpu => {
            let mut out = pad_left_chars(decimal_chars(entry.cpu as u64), 2, '0');
            out.push(' ');
            out.push('%');
            string_from_chars(&out)
        },
        ColumnId::CpuTime => format_elapsed_time(entry.display_cpu_time_100ns),
        ColumnId::MemUsage => format_kilobytes(entry.mem_usage_kb),
        ColumnId::MemUsageDiff => format_signed_kilobytes(entry.mem_diff_kb),
        ColumnId::PageFaults => decimal_text(entry.page_faults as u64),
        ColumnId::PageFaultsDiff => string_from_chars(&signed_decimal_chars(entry.page_faults_diff)),
        ColumnId::CommitCharge => format_kilobytes(entry.commit_charge_kb),
        ColumnId::PagedPool => format_kilobytes(entry.paged_pool_kb),
        ColumnId::NonPagedPool => format_kilobytes(entry.nonpaged_pool_kb),
        ColumnId::BasePriority => strings.priority_label(entry.priority_class),
        ColumnId::HandleCount => decimal_text(entry.handle_count as u64),
        ColumnId::ThreadCount => decimal_text(entry.thread_count as u64),
    }
}

/// The columns a 16-bit task shows; its other cells stay blank.
pub open spec fn spec_wow_task_shows(column_id: ColumnId) -> bool {
    match column_id {
        ColumnId::ImageName | ColumnId::Username | ColumnId::SessionId | ColumnId::BasePriority
        | ColumnId::ThreadCount | ColumnId::CpuTime | ColumnId::Cpu => true,
        _ => false,
    }
}

/// The text the list shows in a cell: blank for the columns a 16-bit task lacks.
pub fn cell_text(language: UiLanguage, entry: &ProcEntry, column_id: ColumnId, strings: &ProcessStrings) -> (r: String)
    ensures
        r@ == (if entry.is_wow_task && !spec_wow_task_shows(column_id) {
            Seq::empty()
        } else {
            spec_column_text(language, *entry, column_id, *strings)
        }),
{
    let shows = match column_id {
        ColumnId::ImageName | ColumnId::Username | ColumnId::SessionId | ColumnId::BasePriority
        | ColumnId::ThreadCount | ColumnId::CpuTime | ColumnId::Cpu => true,
        _ => false,
    };
    if entry.is_wow_task && !shows {
        String::new()
    } else {
        column_text(language, entry, column_id, strings)
    }
}

/// The code units of a buffer before its first NUL.
pub open spec fn before_nul(b: Seq<u16>) -> Seq<u16>
    decreases b.len(),
{
    if b.len() == 0 || b[0] == 0 {
        Seq::empty()
    } else {
        seq![b[0]] + before_nul(b.drop_first())
    }
}

proof fn lemma_units_nonzero(s: Seq<char>)
    requires
        forall|i: int| 0 <= i < s.len() ==> s[i] != '\0',
    ensures
        forall|k: int| 0 <= k < utf16_units(s).len() ==> utf16_units(s)[k] != 0,
    decreases s.len(),
{
    if s.len() > 0 {
        let rest = s.drop_first();
        assert forall|i: int| 0 <= i < rest.len() implies rest[i] != '\0' by {
            assert(rest[i] == s[i + 1]);
        }
        lemma_units_nonzero(rest);
        let head = utf16_of_char(s[0]);
        let u = utf16_units(s);
        assert(u == head + utf16_units(rest));
        assert(s[0] != '\0');
        let v = s[0] as int;
        vstd::utf8::char_is_scalar(s[0]);
        vstd::utf8::char_u32_cast(s[0], s[0] as u32);
        assert(s[0] as u32 as int == v);
        assert(v != 0) by {
            if v == 0 {
                assert(s[0] as u32 == 0u32);
                assert((0u32 as char) == '\0');
            }
        }
        if v < 0x10000 {
            assert(head[0] as int == v);
        } else {
            let q = (v - 0x10000) / 0x400;
            let r = (v - 0x10000) % 0x400;
            assert(0 <= q < 0x400 && 0 <= r < 0x400) by (nonlinear_arith)
                requires
                    0x10000 <= v <= 0x10FFFF,
                    q == (v - 0x10000) / 0x400,
                    r == (v - 0x10000) % 0x400,
            ;
            assert(head[0] as int == 0xD800 + q);
            assert(head[1] as int == 0xDC00 + r);
        }
        assert forall|k: int| 0 <= k < u.len() implies u[k] != 0 by {
            if k >= head.len() {
                assert(u[k] == utf16_units(rest)[k - head.len()]);
            } else {
                assert(u[k] == head[k]);
            }
        }
    }
}

proof fn lemma_before_nul_of_terminated(u: Seq<u16>)
    requires
        forall|k: int| 0 <= k < u.len() ==> u[k] != 0,
    ensures
        before_nul(u.push(0u16)) == u,
    decreases u.len(),
{
    let t = u.push(0u16);
    if u.len() == 0 {
        assert(t[0] == 0);
    } else {
        let rest = u.drop_first();
        assert forall|k: int| 0 <= k < rest.len() implies rest[k] != 0 by {
            assert(rest[k] == u[k + 1]);
        }
        lemma_before_nul_of_terminated(rest);
        assert(t[0] == u[0]);
        assert(t.drop_first() =~= rest.push(0u16));
        assert(u =~= seq![u[0]] + rest);
    }
}

/// A text without NUL characters, written into a buffer as `to_wide_null` writes it,
/// reads back unchanged through `utf16_buffer_to_string`.
pub proof fn lemma_wide_buffer_round_trip(s: Seq<char>)
    requires
        forall|i: int| 0 <= i < s.len() ==> s[i] != '\0',
    ensures
        utf16_lossy(before_nul(utf16_units(s).push(0u16))) == s,
{
    lemma_units_nonzero(s);
    lemma_before_nul_of_terminated(utf16_units(s));
    lemma_utf16_round_trip(s);
}

/// The string held in a NUL-terminated UTF-16 buffer (all of it when no NUL is found),
/// decoded lossily.
pub fn utf16_buffer_to_string(buffer: &[u16]) -> (r: String)
    ensures
        r@ == utf16_lossy(before_nul(buffer@)),
{
    let mut units: Vec<u16> = Vec::new();
    let mut i: usize = 0;
    assert(buffer@.skip(0) =~= buffer@);
    while i < buffer.len() && buffer[i] != 0
        invariant
            i <= buffer@.len(),
            units@ + before_nul(buffer@.skip(i as int)) == before_nul(buffer@),
        decreases buffer.len() - i,
    {
        let ghost rest = buffer@.skip(i as int);
        assert(rest.drop_first() =~= buffer@.skip(i + 1));
        units.push(buffer[i]);
        assert(units@ + before_nul(buffer@.skip(i + 1)) =~= (units@.drop_last()) + (seq![buffer@[i as int]] + before_nul(buffer@.skip(i + 1))));
        i += 1;
    }
    assert(before_nul(buffer@.skip(i as int)) =~= Seq::<u16>::empty());
    assert(units@ + Seq::<u16>::empty() =~= units@);
    let chars = decode_utf16_lossy(units.as_slice());
    string_from_chars(&chars)
}

/// Whether a character separates the parts of a path.
pub open spec fn is_path_separator(c: char) -> bool {
    c == '\\' || c == '/'
}

/// The part of a path after its last separator (all of it when there is none).
pub open spec fn spec_basename(path: Seq<char>) -> Seq<char>
    decreases path.len(),
{
    if path.len() == 0 || is_path_separator(path.last()) {
        Seq::empty()
    } else {
        spec_basename(path.drop_last()).push(path.last())
    }
}

/// The file name of a path.
pub fn basename_from_path(path: &str) -> (r: String)
    ensures
        r@ == spec_basename(path@),
{
    let chars = chars_of(path);
    let n = chars.len();
    let mut j: usize = n;
    assert(chars@.take(n as int) =~= chars@);
    assert(chars@.subrange(n as int, n as int) =~= Seq::<char>::empty());
    while j > 0 && chars[j - 1] != '\\' && chars[j - 1] != '/'
        invariant
            n == chars@.len(),
            j <= n,
            spec_basename(chars@) == spec_basename(chars@.take(j as int)) + chars@.subrange(j as int, n as int),
        decreases j,
    {
        let ghost prefix = chars@.take(j as int);
        assert(prefix.drop_last() =~= chars@.take(j - 1));
        assert(chars@.subrange(j - 1, n as int) =~= seq![chars@[j - 1]] + chars@.subrange(j as int, n as int));
        assert(spec_basename(prefix) == spec_basename(chars@.take(j - 1)).push(chars@[j - 1]));
        assert(spec_basename(chars@.take(j - 1)).push(chars@[j - 1]) + chars@.subrange(j as int, n as int)
            =~= spec_basename(chars@.take(j - 1)) + chars@.subrange(j - 1, n as int));
        j -= 1;
    }
    assert(spec_basename(chars@.take(j as int)) =~= Seq::<char>::empty());
    let mut out: Vec<char> = Vec::new();
    let mut i: usize = j;
    while i < n
        invariant
            j <= i <= n,
            n == chars@.len(),
            out@ == chars@.subrange(j as int, i as int),
        decreases n - i,
    {
        out.push(chars[i]);
        i += 1;
        assert(out@ =~= chars@.subrange(j as int, i as int));
    }
    assert(Seq::<char>::empty() + out@ =~= out@);
    string_from_chars(&out)
}

/// The characters before the first `"`.
pub open spec fn until_quote(s: Seq<char>) -> Seq<char>
    decreases s.len(),
{
    if s.len() == 0 || s[0] == '"' {
        Seq::empty()
    } else {
        seq![s[0]] + until_quote(s.drop_first())
    }
}

/// The characters before the first white space.
pub open spec fn until_space(s: Seq<char>) -> Seq<char>
    decreases s.len(),
{
    if s.len() == 0 || is_unicode_whitespace(s[0]) {
        Seq::empty()
    } else {
        seq![s[0]] + until_space(s.drop_first())
    }
}

/// The program of a command line: the quoted text after a leading `"`, else the first
/// white-space-separated word (empty for a blank line).
pub open spec fn spec_first_command_token(command_line: Seq<char>) -> Seq<char> {
    let t = spec_trim(command_line);
    if t.len() > 0 && t[0] == '"' {
        until_quote(t.drop_first())
    } else {
        until_space(t)
    }
}

/// Whether `c` ends a quoted token (`quote`) or a bare one.
fn stops_token(c: char, quote: bool) -> (r: bool)
    ensures
        r == (if quote { c == '"' } else { is_unicode_whitespace(c) }),
{
    if quote {
        c == '"'
    } else {
        is_whitespace(c)
    }
}

fn take_until(s: &Vec<char>, start: usize, quote: bool) -> (r: Vec<char>)
    requires
        start <= s@.len(),
    ensures
        r@ == (if quote { until_quote(s@.skip(start as int)) } else { until_space(s@.skip(start as int)) }),
{
    let mut out: Vec<char> = Vec::new();
    let mut i: usize = start;
    let ghost target = if quote { until_quote(s@.skip(start as int)) } else { until_space(s@.skip(start as int)) };
    while i < s.len() && !stops_token(s[i], quote)
        invariant
            start <= i <= s@.len(),
            target == (if quote { until_quote(s@.skip(start as int)) } else { until_space(s@.skip(start as int)) }),
            out@ + (if quote { until_quote(s@.skip(i as int)) } else { until_space(s@.skip(i as int)) }) == target,
        decreases s.len() - i,
    {
        let ghost rest = s@.skip(i as int);
        assert(rest.drop_first() =~= s@.skip(i + 1));
        assert(rest[0] == s@[i as int]);
        let c = s[i];
        out.push(c);
        if quote {
            assert(out@ + until_quote(s@.skip(i + 1)) =~= out@.drop_last() + (seq![c] + until_quote(s@.skip(i + 1))));
        } else {
            assert(out@ + until_space(s@.skip(i + 1)) =~= out@.drop_last() + (seq![c] + until_space(s@.skip(i + 1))));
        }
        i += 1;
    }
    assert(out@ + Seq::<char>::empty() =~= out@);
    out
}

/// Extracts the program of a command line.
pub fn extract_first_command_token(command_line: &str) -> (r: String)
    ensures
        r@ == spec_first_command_token(command_line@),
{
    let chars = chars_of(command_line);
    let trimmed = trim_chars(&chars);
    let token = if trimmed.len() > 0 && trimmed[0] == '"' {
        assert(trimmed@.skip(1) =~= trimmed@.drop_first());
        take_until(&trimmed, 1, true)
    } else {
        assert(trimmed@.skip(0) =~= trimmed@);
        take_until(&trimmed, 0, false)
    };
    string_from_chars(&token)
}

/// ASCII lower case of a character; other characters unchanged.
pub open spec fn ascii_lower(c: char) -> char {
    if 'A' <= c && c <= 'Z' {
        ((c as u32) + 32) as char
    } else {
        c
    }
}

/// Equality up to ASCII case, as `str::eq_ignore_ascii_case` tests it.
pub open spec fn spec_eq_ignore_ascii_case(a: Seq<char>, b: Seq<char>) -> bool {
    a.len() == b.len() && forall|i: int| 0 <= i < a.len() ==> ascii_lower(#[trigger] a[i]) == ascii_lower(b[i])
}

fn lower_ascii(c: char) -> (r: char)
    ensures
        r == ascii_lower(c),
{
    if 'A' <= c && c <= 'Z' {
        let u = (c as u32) + 32;
        match crate::winutil::char_from_u32(u) {
            Some(l) => l,
            None => c,
        }
    } else {
        c
    }
}

/// Compares two strings up to ASCII case.
pub fn eq_ignore_ascii_case(a: &str, b: &str) -> (r: bool)
    ensures
        r == spec_eq_ignore_ascii_case(a@, b@),
{
    let ca = chars_of(a);
    let cb = chars_of(b);
    if ca.len() != cb.len() {
        return false;
    }
    let mut i: usize = 0;
    while i < ca.len()
        invariant
            ca@.len() == cb@.len(),
            ca@ == a@,
            cb@ == b@,
            i <= ca@.len(),
            forall|k: int| 0 <= k < i ==> ascii_lower(#[trigger] ca@[k]) == ascii_lower(cb@[k]),
        decreases ca.len() - i,
    {
        if lower_ascii(ca[i]) != lower_ascii(cb[i]) {
            return false;
        }
        i += 1;
    }
    true
}

/// The debugger a registry command line names, unless it is blank or the system's own
/// crash reporter (`drwtsn32`), which cannot attach to a running process.
pub open spec fn spec_debugger_from_command(command_line: Seq<char>) -> Option<Seq<char>> {
    let executable = spec_first_command_token(command_line);
    if executable.len() == 0 || spec_eq_ignore_ascii_case(executable, "drwtsn32"@)
        || spec_eq_ignore_ascii_case(executable, "drwtsn32.exe"@) {
        None
    } else {
        Some(executable)
    }
}

/// Picks the debugger out of the registry's command line.
pub fn debugger_from_command(command_line: &str) -> (r: Option<String>)
    ensures
        match r {
            Some(s) => spec_debugger_from_command(command_line@) == Some(s@),
            None => spec_debugger_from_command(command_line@) is None,
        },
{
    let executable = extract_first_command_token(command_line);
    if executable.unicode_len() == 0 || eq_ignore_ascii_case(executable.as_str(), "drwtsn32")
        || eq_ignore_ascii_case(executable.as_str(), "drwtsn32.exe") {
        None
    } else {
        Some(executable)
    }
}

/// The command line that starts the debugger on a process: `{debugger} -p {pid}`.
pub fn debugger_command_line(debugger_path: &str, pid: u32) -> (r: String)
    ensures
        r@ == debugger_path@ + seq![' ', '-', 'p', ' '] + decimal(pid as nat),
{
    let mut out = chars_of(debugger_path);
    out.push(' ');
    out.push('-');
    out.push('p');
    out.push(' ');
    let digits = decimal_chars(pid as u64);
    extend_chars(&mut out, &digits);
    string_from_chars(&out)
}


/// Every cell of the process list shows its own column's value: a number column reads
/// back as the number it shows (followed by " K" for a size in kilobytes, by " %" for the
/// CPU share), the user column is the user name, the name column starts with the image
/// name, the CPU time column is the displayed CPU time, and the priority column names the
/// priority class.
pub proof fn lemma_cells_show_their_values(language: UiLanguage, e: ProcEntry, strings: ProcessStrings)
    ensures
        all_digits(spec_column_text(language, e, ColumnId::Pid, strings)) && decimal_value(spec_column_text(language, e, ColumnId::Pid, strings)) == e.pid,
        all_digits(spec_column_text(language, e, ColumnId::SessionId, strings)) && decimal_value(spec_column_text(language, e, ColumnId::SessionId, strings)) == e.session_id,
        all_digits(spec_column_text(language, e, ColumnId::PageFaults, strings)) && decimal_value(spec_column_text(language, e, ColumnId::PageFaults, strings)) == e.page_faults,
        all_digits(spec_column_text(language, e, ColumnId::HandleCount, strings)) && decimal_value(spec_column_text(language, e, ColumnId::HandleCount, strings)) == e.handle_count,
        all_digits(spec_column_text(language, e, ColumnId::ThreadCount, strings)) && decimal_value(spec_column_text(language, e, ColumnId::ThreadCount, strings)) == e.thread_count,
        signed_value(spec_column_text(language, e, ColumnId::PageFaultsDiff, strings)) == e.page_faults_diff,
        spec_column_text(language, e, ColumnId::MemUsage, strings).len() >= 2 && spec_column_text(language, e, ColumnId::MemUsage, strings).subrange(spec_column_text(language, e, ColumnId::MemUsage, strings).len() - 2, spec_column_text(language, e, ColumnId::MemUsage, strings).len() as int) == seq![' ', 'K'],
        all_digits(spec_column_text(language, e, ColumnId::MemUsage, strings).subrange(0, spec_column_text(language, e, ColumnId::MemUsage, strings).len() - 2)) && decimal_value(spec_column_text(language, e, ColumnId::MemUsage, strings).subrange(0, spec_column_text(language, e, ColumnId::MemUsage, strings).len() - 2)) == e.mem_usage_kb,
        spec_column_text(language, e, ColumnId::CommitCharge, strings).len() >= 2 && spec_column_text(language, e, ColumnId::CommitCharge, strings).subrange(spec_column_text(language, e, ColumnId::CommitCharge, strings).len() - 2, spec_column_text(language, e, ColumnId::CommitCharge, strings).len() as int) == seq![' ', 'K'],
        all_digits(spec_column_text(language, e, ColumnId::CommitCharge, strings).subrange(0, spec_column_text(language, e, ColumnId::CommitCharge, strings).len() - 2)) && decimal_value(spec_column_text(language, e, ColumnId::CommitCharge, strings).subrange(0, spec_column_text(language, e, ColumnId::CommitCharge, strings).len() - 2)) == e.commit_charge_kb,
        spec_column_text(language, e, ColumnId::PagedPool, strings).len() >= 2 && spec_column_text(language, e, ColumnId::PagedPool, strings).subrange(spec_column_text(language, e, ColumnId::PagedPool, strings).len() - 2, spec_column_text(language, e, ColumnId::PagedPool, strings).len() as int) == seq![' ', 'K'],
        all_digits(spec_column_text(language, e, ColumnId::PagedPool, strings).subrange(0, spec_column_text(language, e, ColumnId::PagedPool, strings).len() - 2)) && decimal_value(spec_column_text(language, e, ColumnId::PagedPool, strings).subrange(0, spec_column_text(language, e, ColumnId::PagedPool, strings).len() - 2)) == e.paged_pool_kb,
        spec_column_text(language, e, ColumnId::NonPagedPool, strings).len() >= 2 && spec_column_text(language, e, ColumnId::NonPagedPool, strings).subrange(spec_column_text(language, e, ColumnId::NonPagedPool, strings).len() - 2, spec_column_text(language, e, ColumnId::NonPagedPool, strings).len() as int) == seq![' ', 'K'],
        all_digits(spec_column_text(language, e, ColumnId::NonPagedPool, strings).subrange(0, spec_column_text(language, e, ColumnId::NonPagedPool, strings).len() - 2)) && decimal_value(spec_column_text(language, e, ColumnId::NonPagedPool, strings).subrange(0, spec_column_text(language, e, ColumnId::NonPagedPool, strings).len() - 2)) == e.nonpaged_pool_kb,
        spec_column_text(language, e, ColumnId::MemUsageDiff, strings).len() >= 2 && spec_column_text(language, e, ColumnId::MemUsageDiff, strings).subrange(spec_column_text(language, e, ColumnId::MemUsageDiff, strings).len() - 2, spec_column_text(language, e, ColumnId::MemUsageDiff, strings).len() as int) == seq![' ', 'K'],
        signed_value(spec_column_text(language, e, ColumnId::MemUsageDiff, strings).subrange(0, spec_column_text(language, e, ColumnId::MemUsageDiff, strings).len() - 2)) == e.mem_diff_kb,
        spec_column_text(language, e, ColumnId::Cpu, strings).len() >= 4 && spec_column_text(language, e, ColumnId::Cpu, strings).subrange(spec_column_text(language, e, ColumnId::Cpu, strings).len() - 2, spec_column_text(language, e, ColumnId::Cpu, strings).len() as int) == seq![' ', '%'],
        all_digits(spec_column_text(language, e, ColumnId::Cpu, strings).subrange(0, spec_column_text(language, e, ColumnId::Cpu, strings).len() - 2)) && decimal_value(spec_column_text(language, e, ColumnId::Cpu, strings).subrange(0, spec_column_text(language, e, ColumnId::Cpu, strings).len() - 2)) == e.cpu,
        spec_column_text(language, e, ColumnId::Username, strings) == e.user_name@,
        spec_column_text(language, e, ColumnId::ImageName, strings).len() >= e.image_name@.len() && spec_column_text(language, e, ColumnId::ImageName, strings).subrange(0, e.image_name@.len() as int) == e.image_name@,
        !e.is_32_bit ==> spec_column_text(language, e, ColumnId::ImageName, strings) == e.image_name@,
        spec_column_text(language, e, ColumnId::CpuTime, strings) == spec_elapsed_time(e.display_cpu_time_100ns),
        e.priority_class == IDLE_PRIORITY_CLASS ==> spec_column_text(language, e, ColumnId::BasePriority, strings) == strings.priority_low@,
        e.priority_class == NORMAL_PRIORITY_CLASS ==> spec_column_text(language, e, ColumnId::BasePriority, strings) == strings.priority_normal@,
        e.priority_class == HIGH_PRIORITY_CLASS ==> spec_column_text(language, e, ColumnId::BasePriority, strings) == strings.priority_high@,
        e.priority_class == REALTIME_PRIORITY_CLASS ==> spec_column_text(language, e, ColumnId::BasePriority, strings) == strings.priority_realtime@,
{
    lemma_decimal_reads_back(e.pid as nat);
    lemma_decimal_reads_back(e.session_id as nat);
    lemma_decimal_reads_back(e.page_faults as nat);
    lemma_decimal_reads_back(e.handle_count as nat);
    lemma_decimal_reads_back(e.thread_count as nat);
    lemma_signed_decimal_reads_back(e.page_faults_diff as int);
    lemma_decimal_reads_back(e.mem_usage_kb as nat);
    assert(spec_column_text(language, e, ColumnId::MemUsage, strings).subrange(0, spec_column_text(language, e, ColumnId::MemUsage, strings).len() - 2) =~= decimal(e.mem_usage_kb as nat));
    assert(spec_column_text(language, e, ColumnId::MemUsage, strings).subrange(spec_column_text(language, e, ColumnId::MemUsage, strings).len() - 2, spec_column_text(language, e, ColumnId::MemUsage, strings).len() as int) =~= seq![' ', 'K']);
    lemma_decimal_reads_back(e.commit_charge_kb as nat);
    assert(spec_column_text(language, e, ColumnId::CommitCharge, strings).subrange(0, spec_column_text(language, e, ColumnId::CommitCharge, strings).len() - 2) =~= decimal(e.commit_charge_kb as nat));
    assert(spec_column_text(language, e, ColumnId::CommitCharge, strings).subrange(spec_column_text(language, e, ColumnId::CommitCharge, strings).len() - 2, spec_column_text(language, e, ColumnId::CommitCharge, strings).len() as int) =~= seq![' ', 'K']);
    lemma_decimal_reads_back(e.paged_pool_kb as nat);
    assert(spec_column_text(language, e, ColumnId::PagedPool, strings).subrange(0, spec_column_text(language, e, ColumnId::PagedPool, strings).len() - 2) =~= decimal(e.paged_pool_kb as nat));
    assert(spec_column_text(language, e, ColumnId::PagedPool, strings).subrange(spec_column_text(language, e, ColumnId::PagedPool, strings).len() - 2, spec_column_text(language, e, ColumnId::PagedPool, strings).len() as int) =~= seq![' ', 'K']);
    lemma_decimal_reads_back(e.nonpaged_pool_kb as nat);
    assert(spec_column_text(language, e, ColumnId::NonPagedPool, strings).subrange(0, spec_column_text(language, e, ColumnId::NonPagedPool, strings).len() - 2) =~= decimal(e.nonpaged_pool_kb as nat));
    assert(spec_column_text(language, e, ColumnId::NonPagedPool, strings).subrange(spec_column_text(language, e, ColumnId::NonPagedPool, strings).len() - 2, spec_column_text(language, e, ColumnId::NonPagedPool, strings).len() as int) =~= seq![' ', 'K']);
    lemma_signed_decimal_reads_back(e.mem_diff_kb as int);
    assert(spec_column_text(language, e, ColumnId::MemUsageDiff, strings).subrange(0, spec_column_text(language, e, ColumnId::MemUsageDiff, strings).len() - 2) =~= signed_decimal(e.mem_diff_kb as int));
    assert(spec_column_text(language, e, ColumnId::MemUsageDiff, strings).subrange(spec_column_text(language, e, ColumnId::MemUsageDiff, strings).len() - 2, spec_column_text(language, e, ColumnId::MemUsageDiff, strings).len() as int) =~= seq![' ', 'K']);
    lemma_decimal_reads_back(e.cpu as nat);
    let d = decimal(e.cpu as nat);
    let padded = pad_left(d, 2, '0');
    if d.len() < 2 {
        assert(padded =~= seq!['0'] + d);
        lemma_leading_zero(d);
        assert forall|i: int| 0 <= i < padded.len() implies 0 <= #[trigger] digit_value(padded[i]) <= 9 by {
            if i > 0 {
                assert(padded[i] == d[i - 1]);
            }
        }
    }
    assert(spec_column_text(language, e, ColumnId::Cpu, strings).subrange(0, spec_column_text(language, e, ColumnId::Cpu, strings).len() - 2) =~= padded);
    assert(spec_column_text(language, e, ColumnId::Cpu, strings).subrange(spec_column_text(language, e, ColumnId::Cpu, strings).len() - 2, spec_column_text(language, e, ColumnId::Cpu, strings).len() as int) =~= seq![' ', '%']);
    assert(spec_column_text(language, e, ColumnId::ImageName, strings).subrange(0, e.image_name@.len() as int) =~= e.image_name@);
}

} // verus!
