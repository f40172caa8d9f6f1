//! The program's own data file: the colour mode, kept as JSON.

use vstd::prelude::*;
use vstd::string::*;

verus! {

/// The data kept in the program's data file.
#[derive(Clone, Debug, PartialEq, Eq)]
pub struct ProData {
    pub colormode: String,
}

/// The path of the data file.
pub open spec fn data_file_path() -> Seq<char> {
    "timeup.json"@
}

/// The path of the data file, which the caller keeps for the later reads and
/// saves.
pub fn init() -> (path: String)
    ensures
        path@ == data_file_path(),
{
    String::from_str("timeup.json")
}

/// The data used when the file's text is not valid data.
pub fn default_data() -> (d: ProData)
    ensures
        d.colormode@ == "auto"@,
{
    ProData { colormode: String::from_str("auto") }
}

/// Reading the data file. `loaded` is `Err` when the file could not be
/// opened or read, else the result of decoding its text as JSON data.
/// Data that does not decode gives the default data. Whatever is read
/// becomes the current data `datas`; a failed read leaves it alone.
pub fn read_outcome(datas: &mut Option<ProData>, loaded: Result<Result<ProData, String>, String>) -> (r:
    Option<ProData>)
    ensures
        match loaded {
            Err(_) => r is None && *final(datas) == *old(datas),
            Ok(Ok(d)) => r == Some(d) && *final(datas) == Some(d),
            Ok(Err(_)) => r is Some && r->0.colormode@ == "auto"@ && *final(datas) == r,
        },
{
    match loaded {
        Ok(decoded) => {
            let d = match decoded {
                Ok(d) => d,
                Err(_) => default_data(),
            };
            *datas = Some(d.clone_data());
            Some(d)
        },
        Err(_) => None,
    }
}

impl ProData {
    /// A copy of the data.
    pub fn clone_data(&self) -> (r: ProData)
        ensures
            r == *self,
    {
        ProData { colormode: self.colormode.clone() }
    }
}

/// A lower-case hexadecimal digit.
pub open spec fn hex_digit(n: int) -> char {
    if n < 10 {
        (('0' as int) + n) as char
    } else {
        (('a' as int) + n - 10) as char
    }
}

/// How JSON writes one character inside a string: a quote and a backslash
/// behind a backslash, the short escapes of backspace, tab, line feed, form
/// feed and carriage return, `\u00XX` (lower-case hex) for the other
/// control characters below U+0020, and every other character as it is.
pub open spec fn json_char_escape(c: char) -> Seq<char> {
    if c == '"' {
        seq!['\\', '"']
    } else if c == '\\' {
        seq!['\\', '\\']
    } else if c == '\u{8}' {
        seq!['\\', 'b']
    } else if c == '\t' {
        seq!['\\', 't']
    } else if c == '\n' {
        seq!['\\', 'n']
    } else if c == '\u{c}' {
        seq!['\\', 'f']
    } else if c == '\r' {
        seq!['\\', 'r']
    } else if (c as int) < 0x20 {
        seq!['\\', 'u', '0', '0', hex_digit((c as int) / 16), hex_digit((c as int) % 16)]
    } else {
        seq![c]
    }
}

/// The characters of a string as JSON writes them inside its quotes.
pub open spec fn json_escape(s: Seq<char>) -> Seq<char>
    decreases s.len(),
{
    if s.len() == 0 {
        Seq::<char>::empty()
    } else {
        json_char_escape(s[0]) + json_escape(s.drop_first())
    }
}

/// The JSON text of a string: the escaped characters between double quotes.
pub open spec fn json_string_repr(s: Seq<char>) -> Seq<char> {
    seq!['"'] + json_escape(s) + seq!['"']
}

/// Writes `s` as a JSON string with `serde_json::to_string` (serde_json
/// crate), which cannot fail on a `str` (it writes into a `Vec`). The
/// contract states serde_json's escaping (its `ESCAPE` table and
/// `write_char_escape`): see `json_char_escape`.
#[verifier::external_body]
fn json_string(s: &str) -> (r: String)
    ensures
        r@ == json_string_repr(s@),
{
    serde_json::to_string(s).unwrap()
}

/// The JSON text of the current data: `null` when there is none, else an
/// object with the single key `colormode`.
pub open spec fn data_json(datas: Option<ProData>) -> Seq<char> {
    match datas {
        None => "null"@,
        Some(d) => "{\"colormode\":"@ + json_string_repr(d.colormode@) + "}"@,
    }
}

/// First part of saving: `configs` becomes the current data, and the result
/// is the text to write to the data file.
pub fn save_contents(datas: &mut Option<ProData>, configs: Option<ProData>) -> (contents: String)
    ensures
        *final(datas) == configs,
        contents@ == data_json(configs),
        configs is None ==> contents@ == "null"@,
        configs matches Some(d) ==> contents@ == "{\"colormode\":"@ + json_string_repr(d.colormode@)
            + "}"@,
{
    let contents = match &configs {
        None => String::from_str("null"),
        Some(d) => {
            let mut text = String::from_str("{\"colormode\":");
            let q = json_string(d.colormode.as_str());
            text.append(q.as_str());
            text.append("}");
            text
        },
    };
    *datas = configs;
    contents
}

/// Last part of saving: the answer once writing `contents` gave `written`:
/// whether it was written, with the contents, or with the error's text.
pub fn save_outcome(contents: String, written: Result<(), String>) -> (r: Option<(bool, String)>)
    ensures
        match written {
            Ok(()) => r == Some((true, contents)),
            Err(e) => r == Some((false, e)),
        },
{
    match written {
        Ok(()) => Some((true, contents)),
        Err(e) => Some((false, e)),
    }
}


/// Whether JSON writes a character as it is.
pub open spec fn json_plain(c: char) -> bool {
    (c as int) >= 0x20 && c != '"' && c != '\\'
}

proof fn lemma_json_escape_plain_seq(s: Seq<char>)
    requires
        forall|i: int| 0 <= i < s.len() ==> json_plain(#[trigger] s[i]),
    ensures
        json_escape(s) == s,
    decreases s.len(),
{
    if s.len() > 0 {
        let t = s.drop_first();
        assert forall|i: int| 0 <= i < t.len() implies json_plain(#[trigger] t[i]) by {
            assert(t[i] == s[i + 1]);
        }
        lemma_json_escape_plain_seq(t);
        assert(json_plain(s[0]));
        assert(json_escape(s) =~= s);
    }
}

/// JSON writes every character at or above U+0020 other than the quote and
/// the backslash as it is, and every other character as an escape that
/// starts with a backslash; so a string of plain characters is written as
/// it is, between quotes.
pub proof fn law_json_escape_plain(c: char, s: Seq<char>)
    ensures
        json_plain(c) ==> json_char_escape(c) == seq![c],
        !json_plain(c) ==> json_char_escape(c).len() >= 2 && json_char_escape(c)[0] == '\\',
        (forall|i: int| 0 <= i < s.len() ==> json_plain(#[trigger] s[i])) ==> json_string_repr(s)
            == seq!['"'] + s + seq!['"'],
{
    if forall|i: int| 0 <= i < s.len() ==> json_plain(#[trigger] s[i]) {
        lemma_json_escape_plain_seq(s);
    }
}

/// The saved data is `null` when there is none, else the object with the
/// single key `colormode` and the JSON string of the whole colour mode.
pub proof fn law_data_json(d: ProData)
    ensures
        data_json(None) == "null"@,
        data_json(Some(d)) == "{\"colormode\":"@ + json_string_repr(d.colormode@) + "}"@,
{
}

} // verus!
