//! The response envelope, and the text of the error report every tool
//! prints on stderr.
//!
//! Turning values into JSON text is done by the caller with `serde_json`;
//! what it produced (or `None` when it failed) is handed to the functions
//! here, which decide what is printed.

use vstd::prelude::*;

verus! {

/// One machine-readable error inside an [`Envelope`] or error report.
#[derive(Debug, Clone, PartialEq, Eq)]
pub struct ErrorEntry {
    pub code: String,
    pub message: String,
}

impl ErrorEntry {
    pub fn new(code: &str, message: &str) -> (r: ErrorEntry)
        ensures
            r.code@ == code@,
            r.message@ == message@,
    {
        ErrorEntry { code: String::from_str(code), message: String::from_str(message) }
    }
}

/// The shared response envelope:
/// `{"tool": "<name>", "schema_version": <n>, "ok": bool, "data": ..., "errors": [{"code","message"}]}`.
///
/// Tools with a pre-existing pinned JSON contract keep it and print their
/// own values unwrapped.
#[derive(Debug, Clone)]
pub struct Envelope<T> {
    pub tool: String,
    pub schema_version: u32,
    pub ok: bool,
    pub data: T,
    pub errors: Vec<ErrorEntry>,
}

/// `r` is the successful envelope of `tool` at `schema_version` carrying
/// `data`, with no errors.
pub open spec fn is_ok_envelope<T>(r: Envelope<T>, tool: Seq<char>, schema_version: u32, data: T) -> bool {
    &&& r.tool@ == tool
    &&& r.schema_version == schema_version
    &&& r.ok
    &&& r.data == data
    &&& r.errors@.len() == 0
}

/// `r` is the failed envelope of `tool` at `schema_version` carrying `data`
/// and `errors`.
pub open spec fn is_failed_envelope<T>(
    r: Envelope<T>,
    tool: Seq<char>,
    schema_version: u32,
    data: T,
    errors: Seq<ErrorEntry>,
) -> bool {
    &&& r.tool@ == tool
    &&& r.schema_version == schema_version
    &&& !r.ok
    &&& r.data == data
    &&& r.errors@ == errors
}

impl<T> Envelope<T> {
    /// A successful response carrying `data`.
    pub fn ok(tool: &str, schema_version: u32, data: T) -> (r: Envelope<T>)
        ensures
            is_ok_envelope(r, tool@, schema_version, data),
    {
        Envelope {
            tool: String::from_str(tool),
            schema_version,
            ok: true,
            data,
            errors: Vec::new(),
        }
    }

    /// A failed response; `data` may still carry partial results.
    pub fn failed(tool: &str, schema_version: u32, data: T, errors: Vec<ErrorEntry>) -> (r: Envelope<T>)
        ensures
            is_failed_envelope(r, tool@, schema_version, data, errors@),
    {
        Envelope { tool: String::from_str(tool), schema_version, ok: false, data, errors }
    }
}

/// The failed envelope a tool on the envelope reports a fatal error with:
/// `data` (null, as reported) and exactly one error entry.
pub fn failure_envelope<T>(tool: &str, schema_version: u32, data: T, code: &str, message: &str) -> (r: Envelope<T>)
    ensures
        !r.ok,
        r.tool@ == tool@,
        r.schema_version == schema_version,
        r.data == data,
        r.errors@.len() == 1,
        r.errors@[0].code@ == code@,
        r.errors@[0].message@ == message@,
{
    let mut errors: Vec<ErrorEntry> = Vec::new();
    errors.push(ErrorEntry::new(code, message));
    Envelope::failed(tool, schema_version, data, errors)
}

/// The legacy error shape every tool has printed on stderr in JSON mode:
/// `{"ok": false, "error": {"code": ..., "message": ...}}`.
#[derive(Debug, Clone, PartialEq, Eq)]
pub struct LegacyError {
    pub ok: bool,
    pub error: ErrorEntry,
}

/// The legacy error value for `code` and `message`.
pub fn error_value(code: &str, message: &str) -> (r: LegacyError)
    ensures
        !r.ok,
        r.error.code@ == code@,
        r.error.message@ == message@,
{
    LegacyError { ok: false, error: ErrorEntry::new(code, message) }
}

/// The `ok` flag is set by the constructor, not derived from the errors:
/// an envelope built by `ok` and one built by `failed` with no errors, for
/// the same tool, version and data, differ in the flag alone.
pub proof fn lemma_ok_flag_set_by_constructor<T>(
    a: Envelope<T>,
    b: Envelope<T>,
    tool: Seq<char>,
    schema_version: u32,
    data: T,
)
    requires
        is_ok_envelope(a, tool, schema_version, data),
        is_failed_envelope(b, tool, schema_version, data, Seq::empty()),
    ensures
        a.ok && !b.ok,
        a.tool@ == b.tool@,
        a.schema_version == b.schema_version,
        a.data == b.data,
        a.errors@ == b.errors@,
{
}

/// The decimal digit `d` (for `d < 10`) as a character.
pub open spec fn digit_char(d: nat) -> char {
    ((48 + d) as u32) as char
}

/// The decimal spelling of `n`, as `Display` writes an unsigned integer.
pub open spec fn decimal(n: nat) -> Seq<char>
    decreases n,
{
    if n < 10 {
        seq![digit_char(n)]
    } else {
        decimal(n / 10) + seq![digit_char(n % 10)]
    }
}

fn digit_str(d: u32) -> (r: &'static str)
    requires
        d < 10,
    ensures
        r@ == seq![digit_char(d as nat)],
{
    proof {
        reveal_strlit("0");
        reveal_strlit("1");
        reveal_strlit("2");
        reveal_strlit("3");
        reveal_strlit("4");
        reveal_strlit("5");
        reveal_strlit("6");
        reveal_strlit("7");
        reveal_strlit("8");
        reveal_strlit("9");
    }
    match d {
        0 => "0",
        1 => "1",
        2 => "2",
        3 => "3",
        4 => "4",
        5 => "5",
        6 => "6",
        7 => "7",
        8 => "8",
        _ => "9",
    }
}

/// Append the decimal spelling of `n` to `out`.
fn append_decimal(out: &mut String, n: u32)
    ensures
        final(out)@ == old(out)@ + decimal(n as nat),
    decreases n,
{
    if n >= 10 {
        append_decimal(out, n / 10);
    }
    out.append(digit_str(n % 10));
    assert(decimal(n as nat) == if n < 10 {
        seq![digit_char(n as nat)]
    } else {
        decimal((n / 10) as nat) + seq![digit_char((n % 10) as nat)]
    });
}

/// The text-mode report: `error: <message>`.
pub open spec fn text_report(message: Seq<char>) -> Seq<char> {
    "error: "@ + message
}

/// What is printed in JSON mode when the legacy error value could not be
/// rendered: `{"ok":false,"error":{"message":"<message>"}}`.
pub open spec fn legacy_fallback(message: Seq<char>) -> Seq<char> {
    "{\"ok\":false,\"error\":{\"message\":\""@ + message + "\"}}"@
}

/// What is printed in JSON mode when the failed envelope could not be
/// rendered.
pub open spec fn envelope_fallback(
    tool: Seq<char>,
    schema_version: u32,
    code: Seq<char>,
    message: Seq<char>,
) -> Seq<char> {
    "{\"tool\":\""@ + tool + "\",\"schema_version\":"@ + decimal(schema_version as nat)
        + ",\"ok\":false,\"data\":null,\"errors\":[{\"code\":\""@ + code + "\",\"message\":\""@
        + message + "\"}]}"@
}

/// The report of a fatal error for a tool with its own JSON contract.
/// `rendered` is the pretty-printed legacy error value
/// `{"ok": false, "error": {"code": ..., "message": ...}}`, or `None` when
/// rendering failed.
pub open spec fn error_report(is_json: bool, message: Seq<char>, rendered: Option<Seq<char>>) -> Seq<char> {
    if !is_json {
        text_report(message)
    } else {
        match rendered {
            Some(text) => text,
            None => legacy_fallback(message),
        }
    }
}

/// The report of a fatal error for a tool on the envelope. `rendered` is
/// the pretty-printed failed envelope (`data: null`, one error entry), or
/// `None` when rendering failed.
pub open spec fn envelope_error_report(
    is_json: bool,
    tool: Seq<char>,
    schema_version: u32,
    code: Seq<char>,
    message: Seq<char>,
    rendered: Option<Seq<char>>,
) -> Seq<char> {
    if !is_json {
        text_report(message)
    } else {
        match rendered {
            Some(text) => text,
            None => envelope_fallback(tool, schema_version, code, message),
        }
    }
}

/// The view of an optional rendering.
pub open spec fn rendered_view(rendered: Option<String>) -> Option<Seq<char>> {
    match rendered {
        Some(s) => Some(s@),
        None => None,
    }
}

/// The text `report_error` prints on stderr: `error: <message>` in text
/// mode; in JSON mode the rendered legacy error value (the
/// [`error_value`] of the code and message), or a hand-written fallback
/// when rendering failed.
pub fn report_error_text(is_json: bool, message: &str, rendered: Option<String>) -> (r: String)
    ensures
        r@ == error_report(is_json, message@, rendered_view(rendered)),
        !is_json ==> r@ == "error: "@ + message@,
        is_json ==> (rendered matches Some(t) ==> r == t),
        is_json && rendered is None ==> r@ == "{\"ok\":false,\"error\":{\"message\":\""@ + message@
            + "\"}}"@,
{
    if !is_json {
        let mut out = String::from_str("error: ");
        out.append(message);
        out
    } else {
        match rendered {
            Some(text) => text,
            None => {
                let mut out = String::from_str("{\"ok\":false,\"error\":{\"message\":\"");
                out.append(message);
                out.append("\"}}");
                out
            },
        }
    }
}

/// The text `report_error_envelope` prints on stderr: `error: <message>`
/// in text mode; in JSON mode the rendered failed envelope (the
/// [`failure_envelope`] with null data), or a hand-written fallback when
/// rendering failed.
pub fn report_error_envelope_text(
    is_json: bool,
    tool: &str,
    schema_version: u32,
    code: &str,
    message: &str,
    rendered: Option<String>,
) -> (r: String)
    ensures
        r@ == envelope_error_report(
            is_json,
            tool@,
            schema_version,
            code@,
            message@,
            rendered_view(rendered),
        ),
        !is_json ==> r@ == "error: "@ + message@,
        is_json ==> (rendered matches Some(t) ==> r == t),
        is_json && rendered is None ==> r@ == "{\"tool\":\""@ + tool@ + "\",\"schema_version\":"@
            + decimal(schema_version as nat) + ",\"ok\":false,\"data\":null,\"errors\":[{\"code\":\""@
            + code@ + "\",\"message\":\""@ + message@ + "\"}]}"@,
{
    if !is_json {
        let mut out = String::from_str("error: ");
        out.append(message);
        out
    } else {
        match rendered {
            Some(text) => text,
            None => {
                let mut out = String::from_str("{\"tool\":\"");
                out.append(tool);
                out.append("\",\"schema_version\":");
                append_decimal(&mut out, schema_version);
                out.append(",\"ok\":false,\"data\":null,\"errors\":[{\"code\":\"");
                out.append(code);
                out.append("\",\"message\":\"");
                out.append(message);
                out.append("\"}]}");
                out
            },
        }
    }
}

/// In text mode both reports print the same line, `error: <message>`,
/// whatever was rendered.
pub proof fn lemma_text_mode_reports_agree(
    tool: Seq<char>,
    schema_version: u32,
    code: Seq<char>,
    message: Seq<char>,
    rendered: Option<Seq<char>>,
    rendered_envelope: Option<Seq<char>>,
)
    ensures
        error_report(false, message, rendered) == envelope_error_report(
            false,
            tool,
            schema_version,
            code,
            message,
            rendered_envelope,
        ),
        error_report(false, message, rendered) == text_report(message),
{
}

/// In JSON mode, a rendering that succeeded is printed as it is, in full,
/// whatever its length, by both reports.
pub proof fn lemma_rendered_report_printed_whole(
    tool: Seq<char>,
    schema_version: u32,
    code: Seq<char>,
    message: Seq<char>,
    text: Seq<char>,
)
    ensures
        error_report(true, message, Some(text)) == text,
        envelope_error_report(true, tool, schema_version, code, message, Some(text)) == text,
{
}

/// In text mode both reports are `error: ` followed by the entire message,
/// whatever its length and whatever was rendered.
pub proof fn lemma_text_report_carries_whole_message(
    tool: Seq<char>,
    schema_version: u32,
    code: Seq<char>,
    message: Seq<char>,
    rendered: Option<Seq<char>>,
    rendered_envelope: Option<Seq<char>>,
)
    ensures
        error_report(false, message, rendered).len() == message.len() + 7,
        error_report(false, message, rendered).subrange(0, 7) == seq!['e', 'r', 'r', 'o', 'r', ':', ' '],
        error_report(false, message, rendered).subrange(7, message.len() + 7int) == message,
        envelope_error_report(false, tool, schema_version, code, message, rendered_envelope)
            == error_report(false, message, rendered),
{
    reveal_strlit("error: ");
    let r = error_report(false, message, rendered);
    assert(r.subrange(0, 7) =~= seq!['e', 'r', 'r', 'o', 'r', ':', ' ']);
    assert(r.subrange(7, message.len() + 7int) =~= message);
}

/// The decimal value of a text of digits, read left to right.
pub open spec fn digits_value(s: Seq<char>) -> nat
    decreases s.len(),
{
    if s.len() == 0 {
        0
    } else {
        digits_value(s.drop_last()) * 10 + ((s.last() as u32) - 48) as nat
    }
}

/// The schema version in the envelope fallback is written in decimal: only
/// digits, no leading zero (but for zero itself), and read back it is the
/// version.
pub proof fn lemma_decimal_reads_back(n: nat)
    ensures
        decimal(n).len() >= 1,
        forall|i: int| 0 <= i < decimal(n).len() ==> '0' <= #[trigger] decimal(n)[i] <= '9',
        decimal(n)[0] != '0' || n == 0,
        digits_value(decimal(n)) == n,
    decreases n,
{
    if n >= 10 {
        lemma_decimal_reads_back(n / 10);
        let d = decimal(n);
        let hi = decimal(n / 10);
        assert(d == hi + seq![digit_char(n % 10)]);
        assert(d.drop_last() =~= hi);
        assert(d[0] == hi[0]);
        assert(((digit_char(n % 10) as u32) - 48) as nat == n % 10);
        assert(digits_value(d) == digits_value(hi) * 10 + n % 10);
        assert((n / 10) * 10 + n % 10 == n) by (nonlinear_arith);
        assert forall|i: int| 0 <= i < d.len() implies '0' <= #[trigger] d[i] <= '9' by {
            if i < hi.len() {
                assert(d[i] == hi[i]);
            }
        }
    } else {
        let d = decimal(n);
        assert(d.drop_last() =~= Seq::<char>::empty());
        assert(digits_value(Seq::<char>::empty()) == 0);
    }
}

} // verus!
