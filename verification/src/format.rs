//! The `--format json|text` value shared by every tool.

use vstd::prelude::*;

verus! {

/// Output format selected with `--format`. Spelled `json` / `text` on the
/// command line, exactly as the tools always have.
#[derive(Debug, Clone, Copy, PartialEq, Eq, Structural)]
pub enum Format {
    Json,
    Text,
}

/// `clap`'s description of one accepted spelling of a command-line value.
#[verifier::external_type_specification]
#[verifier::external_body]
pub struct ExPossibleValue(clap::builder::PossibleValue);

/// ASCII lower-casing of one character; every other character is kept.
pub open spec fn ascii_lower(c: char) -> char {
    if 'A' <= c && c <= 'Z' {
        ((c as u32) + 32) as char
    } else {
        c
    }
}

/// Two texts are equal once ASCII letters are folded to one case.
pub open spec fn eq_ignore_ascii_case(a: Seq<char>, b: Seq<char>) -> bool {
    &&& a.len() == b.len()
    &&& forall|i: int| 0 <= i < a.len() ==> #[trigger] ascii_lower(a[i]) == ascii_lower(b[i])
}

/// Whether `input` is accepted for a value spelled `name`.
pub open spec fn spelling_matches(name: Seq<char>, input: Seq<char>, ignore_case: bool) -> bool {
    if ignore_case {
        eq_ignore_ascii_case(name, input)
    } else {
        name == input
    }
}

/// What `clap::builder::PossibleValue::get_name_and_aliases` yields for a
/// value: its name (what `get_name` returns) first, then its aliases.
pub uninterp spec fn possible_value_spellings(v: clap::builder::PossibleValue) -> Seq<Seq<char>>;

/// `input` is accepted by one of `spellings`.
pub open spec fn any_spelling_matches(spellings: Seq<Seq<char>>, input: Seq<char>, ignore_case: bool) -> bool {
    exists|i: int| 0 <= i < spellings.len() && spelling_matches(#[trigger] spellings[i], input, ignore_case)
}

/// `clap::builder::PossibleValue::new(name)`. The contract claims what the
/// source shows: the value's name is `name` and it has no aliases.
#[verifier::external_body]
fn possible_value_new(name: &'static str) -> (r: clap::builder::PossibleValue)
    ensures
        possible_value_spellings(r) == seq![name@],
{
    clap::builder::PossibleValue::new(name)
}

/// `clap::builder::PossibleValue::matches(value, input, ignore_case)`. The
/// source compares `input` with the name and each alias: exactly when
/// `ignore_case` is false, and with `str::eq_ignore_ascii_case` when it is
/// true (clap's `unicode` feature is off). The contract claims that
/// outcome.
#[verifier::external_body]
fn possible_value_matches(value: &clap::builder::PossibleValue, input: &str, ignore_case: bool) -> (r: bool)
    ensures
        r == any_spelling_matches(possible_value_spellings(*value), input@, ignore_case),
{
    value.matches(input, ignore_case)
}

impl Format {
    /// The command-line spelling of each format.
    pub open spec fn spelling(self) -> Seq<char> {
        match self {
            Format::Json => "json"@,
            Format::Text => "text"@,
        }
    }

    /// What `from_str` gives for `input`: the first variant, in declaration
    /// order, whose spelling matches.
    pub open spec fn parsed(input: Seq<char>, ignore_case: bool) -> Option<Format> {
        if spelling_matches(Format::Json.spelling(), input, ignore_case) {
            Some(Format::Json)
        } else if spelling_matches(Format::Text.spelling(), input, ignore_case) {
            Some(Format::Text)
        } else {
            None
        }
    }

    pub fn is_json(self) -> (r: bool)
        ensures
            r == (self == Format::Json),
    {
        match self {
            Format::Json => true,
            Format::Text => false,
        }
    }

    pub fn as_str(self) -> (r: &'static str)
        ensures
            r@ == self.spelling(),
            self == Format::Json ==> r@ == seq!['j', 's', 'o', 'n'],
            self == Format::Text ==> r@ == seq!['t', 'e', 'x', 't'],
    {
        proof {
            reveal_strlit("json");
            reveal_strlit("text");
        }
        match self {
            Format::Json => "json",
            Format::Text => "text",
        }
    }

    /// The spelling as an owned string (what `Display` writes).
    pub fn to_string(self) -> (r: String)
        ensures
            r@ == self.spelling(),
    {
        String::from_str(self.as_str())
    }

    /// Every variant, in declaration order.
    pub fn value_variants() -> (r: Vec<Format>)
        ensures
            r@ == seq![Format::Json, Format::Text],
    {
        let mut v: Vec<Format> = Vec::new();
        v.push(Format::Json);
        v.push(Format::Text);
        v
    }

    /// The canonical command-line value of this variant, as clap knows it:
    /// named by the variant's spelling, with no aliases.
    pub fn to_possible_value(&self) -> (r: Option<clap::builder::PossibleValue>)
        ensures
            r matches Some(v) && possible_value_spellings(v) == seq![self.spelling()],
    {
        Some(possible_value_new(self.as_str()))
    }

    /// Parse a command-line spelling: the first variant whose spelling
    /// matches `input` (ASCII case ignored when `ignore_case`), else
    /// `invalid variant: <input>`.
    pub fn from_str(input: &str, ignore_case: bool) -> (r: Result<Format, String>)
        ensures
            match Format::parsed(input@, ignore_case) {
                Some(f) => r == Ok::<Format, String>(f),
                None => r is Err && r->Err_0@ == "invalid variant: "@ + input@,
            },
            ignore_case && eq_ignore_ascii_case(seq!['j', 's', 'o', 'n'], input@) ==> r == Ok::<
                Format,
                String,
            >(Format::Json),
            ignore_case && eq_ignore_ascii_case(seq!['t', 'e', 'x', 't'], input@) ==> r == Ok::<
                Format,
                String,
            >(Format::Text),
            input@ == seq!['j', 's', 'o', 'n'] ==> r == Ok::<Format, String>(Format::Json),
            input@ == seq!['t', 'e', 'x', 't'] ==> r == Ok::<Format, String>(Format::Text),
    {
        proof {
            lemma_parse_accepts_spellings(input@);
        }
        let variants = Format::value_variants();
        let mut i: usize = 0;
        while i < variants.len()
            invariant
                variants@ == seq![Format::Json, Format::Text],
                0 <= i <= variants.len(),
                forall|j: int|
                    0 <= j < i ==> !spelling_matches(
                        #[trigger] variants@[j].spelling(),
                        input@,
                        ignore_case,
                    ),
            decreases variants.len() - i,
        {
            let v = variants[i];
            match v.to_possible_value() {
                Some(pv) => {
                    let accepted = possible_value_matches(&pv, input, ignore_case);
                    let ghost spellings = possible_value_spellings(pv);
                    assert(spellings == seq![v.spelling()]);
                    if accepted {
                        assert(spelling_matches(spellings[0], input@, ignore_case));
                        proof {
                            lemma_parse_accepts_spellings(input@);
                        }
                        return Ok(v);
                    }
                    assert(!spelling_matches(spellings[0], input@, ignore_case));
                },
                None => {},
            }
            i = i + 1;
        }
        let mut msg = String::from_str("invalid variant: ");
        msg.append(input);
        Err(msg)
    }
}

impl Default for Format {
    fn default() -> (r: Format)
        ensures
            r == Format::Text,
    {
        Format::Text
    }
}

/// Parsing a format's own spelling gives that format back, whether or not
/// case is ignored.
pub proof fn lemma_spelling_round_trip(f: Format, ignore_case: bool)
    ensures
        Format::parsed(f.spelling(), ignore_case) == Some(f),
{
    reveal_strlit("json");
    reveal_strlit("text");
    let json = Format::Json.spelling();
    let text = Format::Text.spelling();
    assert(json[0] == 'j' && text[0] == 't');
    assert(ascii_lower(json[0]) != ascii_lower(text[0]));
    assert(!spelling_matches(json, text, ignore_case));
    assert(spelling_matches(f.spelling(), f.spelling(), ignore_case));
}

/// Each spelling is accepted for its own format: exactly, and, when case is
/// ignored, in any mix of ASCII upper and lower case.
pub proof fn lemma_parse_accepts_spellings(input: Seq<char>)
    ensures
        eq_ignore_ascii_case(seq!['j', 's', 'o', 'n'], input) ==> Format::parsed(input, true) == Some(
            Format::Json,
        ),
        eq_ignore_ascii_case(seq!['t', 'e', 'x', 't'], input) ==> Format::parsed(input, true) == Some(
            Format::Text,
        ),
        input == seq!['j', 's', 'o', 'n'] ==> Format::parsed(input, false) == Some(Format::Json),
        input == seq!['t', 'e', 'x', 't'] ==> Format::parsed(input, false) == Some(Format::Text),
        input == seq!['j', 's', 'o', 'n'] ==> Format::parsed(input, true) == Some(Format::Json),
        input == seq!['t', 'e', 'x', 't'] ==> Format::parsed(input, true) == Some(Format::Text),
{
    reveal_strlit("json");
    reveal_strlit("text");
    let json = seq!['j', 's', 'o', 'n'];
    let text = seq!['t', 'e', 'x', 't'];
    assert(Format::Json.spelling() =~= json);
    assert(Format::Text.spelling() =~= text);
    assert(ascii_lower(json[0]) == 'j');
    assert(ascii_lower(text[0]) == 't');
    if eq_ignore_ascii_case(text, input) {
        assert(ascii_lower(text[0]) == ascii_lower(input[0]));
        assert(!eq_ignore_ascii_case(json, input));
    }
    if eq_ignore_ascii_case(json, input) {
        assert(ascii_lower(json[0]) == ascii_lower(input[0]));
    }
    if input == text {
        assert(json[0] != input[0]);
        assert(ascii_lower(json[0]) != ascii_lower(input[0]));
    }
    assert(eq_ignore_ascii_case(json, json));
    assert(eq_ignore_ascii_case(text, text));
}

/// An exact (case-sensitive) parse only accepts a format's own spelling.
pub proof fn lemma_exact_parse_is_spelling(input: Seq<char>, f: Format)
    requires
        Format::parsed(input, false) == Some(f),
    ensures
        f.spelling() == input,
{
}

} // verus!
