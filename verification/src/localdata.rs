//! Local data of the desktop side: tasks, the window state and the
//! configuration file.

use vstd::prelude::*;
use vstd::string::*;

verus! {

/// The state of a task.
#[derive(Clone, Copy, Debug, PartialEq, Eq, Structural)]
pub enum StaskStatus {
    Wait,
    Completed,
    NoNeed,
}

/// The text by which a task state is shown.
pub open spec fn status_text(s: StaskStatus) -> Seq<char> {
    match s {
        StaskStatus::Completed => "Completed"@,
        StaskStatus::NoNeed => "NoNeed"@,
        StaskStatus::Wait => "Wait"@,
    }
}

impl StaskStatus {
    /// The text by which the state is shown: its variant's name.
    pub fn to_string(&self) -> (s: String)
        ensures
            s@ == status_text(*self),
    {
        match self {
            StaskStatus::Completed => String::from_str("Completed"),
            StaskStatus::NoNeed => String::from_str("NoNeed"),
            StaskStatus::Wait => String::from_str("Wait"),
        }
    }
}

/// The state of the main window: its background effect and colour mode.
#[derive(Clone, Debug)]
pub struct WindowState {
    pub effect: String,
    pub darkmode: bool,
}

/// Copies `value` into the shared window state `target`.
pub fn assign_state(target: &mut WindowState, value: &WindowState)
    ensures
        *final(target) == *value,
{
    target.effect = value.effect.clone();
    target.darkmode = value.darkmode;
}


/// A task of the task list.
#[derive(Clone, Debug)]
pub struct Task {
    pub completed: Option<StaskStatus>,
    pub description: String,
    pub outdate: Option<bool>,
}

/// The task list: a title and its tasks.
#[derive(Clone, Debug)]
pub struct Tasks {
    pub title: String,
    pub items: Vec<Task>,
}

/// The configuration kept in the configuration file.
#[derive(Clone, Debug)]
pub struct Config {
    pub version: String,
    pub colormode: String,
}

/// Copies `value` into the shared configuration `target`.
pub fn assign_config(target: &mut Config, value: &Config)
    ensures
        *final(target) == *value,
{
    target.version = value.version.clone();
    target.colormode = value.colormode.clone();
}

// ---------------------------------------------------------------------------
// The top level of a TOML document, as far as the configuration rules read it.

/// A value of a TOML table: a string, or anything else.
#[derive(Clone, Debug)]
pub enum TomlItem {
    Str(String),
    Other,
}

/// What a TOML value is to the configuration rules.
pub enum TomlItemView {
    Str(Seq<char>),
    Other,
}

impl View for TomlItem {
    type V = TomlItemView;

    open spec fn view(&self) -> TomlItemView {
        match self {
            TomlItem::Str(s) => TomlItemView::Str(s@),
            TomlItem::Other => TomlItemView::Other,
        }
    }
}

/// One key of a TOML table with its value.
#[derive(Clone, Debug)]
pub struct TomlEntry {
    pub key: String,
    pub value: TomlItem,
}

impl View for TomlEntry {
    type V = (Seq<char>, TomlItemView);

    open spec fn view(&self) -> (Seq<char>, TomlItemView) {
        (self.key@, self.value@)
    }
}

/// A parsed TOML document: a table of entries, or some other value.
#[derive(Clone, Debug)]
pub enum TomlDoc {
    Table(Vec<TomlEntry>),
    NotTable,
}

/// A table as a sequence of (key, value) pairs.
pub type TableView = Seq<(Seq<char>, TomlItemView)>;

/// What a parsed TOML document is to the configuration rules.
pub enum TomlDocView {
    Table(TableView),
    NotTable,
}

pub open spec fn entries_view(entries: Seq<TomlEntry>) -> TableView {
    entries.map_values(|e: TomlEntry| e@)
}

impl View for TomlDoc {
    type V = TomlDocView;

    open spec fn view(&self) -> TomlDocView {
        match self {
            TomlDoc::Table(entries) => TomlDocView::Table(entries_view(entries@)),
            TomlDoc::NotTable => TomlDocView::NotTable,
        }
    }
}

/// What `str::parse::<toml::Value>` gives for a text: the document, or the
/// text of the parse error.
pub uninterp spec fn toml_parse(text: Seq<char>) -> Result<TomlDocView, Seq<char>>;

pub open spec fn parsed_view(r: Result<TomlDoc, String>) -> Result<TomlDocView, Seq<char>> {
    match r {
        Ok(d) => Ok(d@),
        Err(e) => Err(e@),
    }
}

/// Parses `text` with `str::parse::<toml::Value>` (toml crate) and keeps the
/// top level: each key of the root table with its value when that is a
/// string; an error gives its `to_string()`. The contract names the result
/// (`toml_parse`) and claims nothing more of it.
#[verifier::external_body]
fn parse_toml(text: &str) -> (res: Result<TomlDoc, String>)
    ensures
        parsed_view(res) == toml_parse(text@),
{
    match text.parse::<toml::Value>() {
        Ok(toml::Value::Table(t)) => Ok(TomlDoc::Table(
            t.into_iter().map(|(key, v)| TomlEntry {
                key,
                value: match v {
                    toml::Value::String(s) => TomlItem::Str(s),
                    _ => TomlItem::Other,
                },
            }).collect(),
        )),
        Ok(_) => Ok(TomlDoc::NotTable),
        Err(e) => Err(e.to_string()),
    }
}

/// The value of the first entry of `t` under `key`.
pub open spec fn lookup(t: TableView, key: Seq<char>) -> Option<TomlItemView>
    decreases t.len(),
{
    if t.len() == 0 {
        None
    } else if t[0].0 == key {
        Some(t[0].1)
    } else {
        lookup(t.drop_first(), key)
    }
}

proof fn lemma_lookup_skip(t: TableView, key: Seq<char>, i: int)
    requires
        0 <= i < t.len(),
    ensures
        lookup(t.skip(i), key) == (if t[i].0 == key {
            Some(t[i].1)
        } else {
            lookup(t.skip(i + 1), key)
        }),
{
    assert(t.skip(i).drop_first() =~= t.skip(i + 1));
}

proof fn lemma_lookup_push(t: TableView, e: (Seq<char>, TomlItemView), key: Seq<char>)
    ensures
        lookup(t.push(e), key) == (match lookup(t, key) {
            Some(v) => Some(v),
            None => if e.0 == key {
                Some(e.1)
            } else {
                None
            },
        }),
    decreases t.len(),
{
    let te = t.push(e);
    assert(te[0] == (if t.len() > 0 { t[0] } else { e }));
    if t.len() > 0 {
        assert(te.drop_first() =~= t.drop_first().push(e));
        lemma_lookup_push(t.drop_first(), e, key);
    } else {
        assert(te.drop_first().len() == 0);
        assert(lookup(te.drop_first(), key) is None);
    }
}

/// Finds the first entry under `key`.
fn find_entry(entries: &Vec<TomlEntry>, key: &String) -> (r: Option<usize>)
    ensures
        match r {
            Some(i) => i < entries.len() && lookup(entries_view(entries@), key@) == Some(
                entries@[i as int].value@,
            ),
            None => lookup(entries_view(entries@), key@) is None,
        },
{
    let ghost t = entries_view(entries@);
    let mut i: usize = 0;
    assert(t.skip(0) =~= t);
    while i < entries.len()
        invariant
            i <= entries.len(),
            t == entries_view(entries@),
            lookup(t, key@) == lookup(t.skip(i as int), key@),
        decreases entries.len() - i,
    {
        proof {
            lemma_lookup_skip(t, key@, i as int);
        }
        if entries[i].key == *key {
            return Some(i);
        }
        i = i + 1;
    }
    assert(t.skip(i as int).len() == 0);
    None
}

/// Whether `entries` has a key `key` (toml's `Table::contains_key`).
fn contains_key(entries: &Vec<TomlEntry>, key: &String) -> (r: bool)
    ensures
        r == lookup(entries_view(entries@), key@) is Some,
{
    find_entry(entries, key).is_some()
}

/// The value under `key` (toml's `Table::get`).
fn get_entry<'a>(entries: &'a Vec<TomlEntry>, key: &String) -> (r: Option<&'a TomlItem>)
    ensures
        match r {
            Some(v) => lookup(entries_view(entries@), key@) == Some(v@),
            None => lookup(entries_view(entries@), key@) is None,
        },
{
    match find_entry(entries, key) {
        Some(i) => Some(&entries[i].value),
        None => None,
    }
}


// ---------------------------------------------------------------------------
// Loading the configuration file.
//
// Loading reads the file, parses it as TOML and checks its `version` key,
// then compares that version with the program's (an outside call), then
// either decodes the file as it is (same version), refuses it (the file is
// newer) or upgrades it (the program is newer) and saves the result. The
// functions below are the decisions between those calls.

/// A configuration as values.
pub struct ConfigView {
    pub version: Seq<char>,
    pub colormode: Seq<char>,
}

impl View for Config {
    type V = ConfigView;

    open spec fn view(&self) -> ConfigView {
        ConfigView { version: self.version@, colormode: self.colormode@ }
    }
}

/// A file whose TOML parsed and whose `version` is a string: what the
/// version comparison and the later steps need.
#[derive(Clone, Debug)]
pub struct VersionCheck {
    /// The file's text.
    pub text: String,
    /// The root table of the file.
    pub table: Vec<TomlEntry>,
    /// The file's `version`.
    pub file_version: String,
}

/// A version check as values: the text, the table and the file's version.
pub open spec fn check_view(c: VersionCheck) -> (Seq<char>, TableView, Seq<char>) {
    (c.text@, entries_view(c.table@), c.file_version@)
}

pub open spec fn string_result_view(r: Result<String, String>) -> Result<Seq<char>, Seq<char>> {
    match r {
        Ok(s) => Ok(s@),
        Err(e) => Err(e@),
    }
}

pub open spec fn begin_view(r: Result<VersionCheck, String>) -> Result<
    (Seq<char>, TableView, Seq<char>),
    Seq<char>,
> {
    match r {
        Ok(c) => Ok(check_view(c)),
        Err(e) => Err(e@),
    }
}

/// The first step of loading, on the outcome of reading the file: an error
/// message, or the text, its root table and its version.
pub open spec fn load_begin(read: Result<Seq<char>, Seq<char>>) -> Result<
    (Seq<char>, TableView, Seq<char>),
    Seq<char>,
> {
    match read {
        Err(e) => Err(e),
        Ok(text) => match toml_parse(text) {
            Err(e) => Err(e),
            Ok(TomlDocView::NotTable) => Err("Invalid data"@),
            Ok(TomlDocView::Table(t)) => match lookup(t, "version"@) {
                None => Err("Corrupted file"@),
                Some(TomlItemView::Other) => Err("Parse failed"@),
                Some(TomlItemView::Str(v)) => Ok((text, t, v)),
            },
        },
    }
}

/// First step of loading the configuration. `read` is what reading the file
/// gave (its text, or the error's text). The text is parsed as TOML; it must
/// be a table with a string under `version`. On success the caller compares
/// the program's version with `file_version` and goes on with
/// `config_load_compared`.
pub fn config_load_begin(read: Result<String, String>) -> (r: Result<VersionCheck, String>)
    ensures
        begin_view(r) == load_begin(string_result_view(read)),
{
    let text = match read {
        Ok(text) => text,
        Err(e) => return Err(e),
    };
    let doc = match parse_toml(text.as_str()) {
        Ok(doc) => doc,
        Err(e) => return Err(e),
    };
    let table = match doc {
        TomlDoc::Table(t) => t,
        TomlDoc::NotTable => return Err(String::from_str("Invalid data")),
    };
    let version_key = String::from_str("version");
    if contains_key(&table, &version_key) {
        let file_version = match get_entry(&table, &version_key) {
            Some(TomlItem::Str(v)) => v.clone(),
            Some(TomlItem::Other) => return Err(String::from_str("Parse failed")),
            None => return Err(String::from_str("Cannot get value")),
        };
        Ok(VersionCheck { text, table, file_version })
    } else {
        Err(String::from_str("Corrupted file"))
    }
}

/// `t` with `e` added when `t` has no entry under `e`'s key.
pub open spec fn insert_missing(t: TableView, e: (Seq<char>, TomlItemView)) -> TableView {
    if lookup(t, e.0) is None {
        t.push(e)
    } else {
        t
    }
}

/// The file's table completed with the keys of the program's configuration
/// that it lacks (in the order of the configuration's table, whose keys are
/// sorted).
pub open spec fn merge_table(t: TableView, current: ConfigView) -> TableView {
    insert_missing(
        insert_missing(t, ("colormode"@, TomlItemView::Str(current.colormode))),
        ("version"@, TomlItemView::Str(current.version)),
    )
}

/// A table read as a configuration: both `version` and `colormode` must be
/// strings; other keys are ignored.
pub open spec fn decode_table(t: TableView) -> Option<ConfigView> {
    match (lookup(t, "version"@), lookup(t, "colormode"@)) {
        (Some(TomlItemView::Str(v)), Some(TomlItemView::Str(c))) => Some(
            ConfigView { version: v, colormode: c },
        ),
        _ => None,
    }
}

/// The configuration that upgrading a file's table gives: the table
/// completed from `current` and decoded, with the program's version.
pub open spec fn upgraded(t: TableView, current: ConfigView) -> Option<ConfigView> {
    match decode_table(merge_table(t, current)) {
        Some(c) => Some(ConfigView { version: current.version, colormode: c.colormode }),
        None => None,
    }
}

/// What loading does after the version comparison.
#[derive(Debug)]
pub enum LoadNext {
    /// Loading is over with this answer.
    Done(Result<Config, String>),
    /// The versions are equal: decode this text as a configuration and go
    /// on with `config_load_decoded`.
    DecodeFile(String),
    /// The file was upgraded to this configuration, which is now the current
    /// one: save it and go on with `config_load_saved`.
    Save(Config),
}

pub enum LoadNextView {
    Done(Result<ConfigView, Seq<char>>),
    DecodeFile(Seq<char>),
    Save(ConfigView),
}

pub open spec fn config_result_view(r: Result<Config, String>) -> Result<ConfigView, Seq<char>> {
    match r {
        Ok(c) => Ok(c@),
        Err(e) => Err(e@),
    }
}

impl View for LoadNext {
    type V = LoadNextView;

    open spec fn view(&self) -> LoadNextView {
        match self {
            LoadNext::Done(r) => LoadNextView::Done(config_result_view(*r)),
            LoadNext::DecodeFile(t) => LoadNextView::DecodeFile(t@),
            LoadNext::Save(c) => LoadNextView::Save(c@),
        }
    }
}

/// The step after the version comparison. `compared` is the comparison of
/// the program's version with the file's: 1 when the file's is greater, -1
/// when the program's is greater, 0 when they are equal, or an error text.
pub open spec fn load_compared(
    current: ConfigView,
    check: (Seq<char>, TableView, Seq<char>),
    compared: Result<i8, Seq<char>>,
) -> LoadNextView {
    match compared {
        Err(e) => LoadNextView::Done(Err(e)),
        Ok(c) => if c == 0 {
            LoadNextView::DecodeFile(check.0)
        } else if c == 1 {
            LoadNextView::Done(Err("Outdate version"@))
        } else if c == -1 {
            match upgraded(check.1, current) {
                Some(u) => LoadNextView::Save(u),
                None => LoadNextView::Done(Err("Parse failed"@)),
            }
        } else {
            LoadNextView::Done(Err("Imposible case"@))
        },
    }
}

pub open spec fn compared_view(r: Result<i8, String>) -> Result<i8, Seq<char>> {
    match r {
        Ok(c) => Ok(c),
        Err(e) => Err(e@),
    }
}

fn insert_missing_entry(entries: &mut Vec<TomlEntry>, entry: TomlEntry)
    ensures
        entries_view(final(entries)@) == insert_missing(entries_view(old(entries)@), entry@),
{
    if !contains_key(entries, &entry.key) {
        let ghost e = entry@;
        entries.push(entry);
        assert(entries_view(entries@) =~= entries_view(old(entries)@).push(e));
    }
}

/// The current configuration after the step on the version comparison: the
/// upgraded one when the step saves it, else as it was.
pub open spec fn config_after_compared(
    current: ConfigView,
    check: (Seq<char>, TableView, Seq<char>),
    compared: Result<i8, Seq<char>>,
) -> ConfigView {
    match load_compared(current, check, compared) {
        LoadNextView::Save(u) => u,
        _ => current,
    }
}

/// The answer and the current configuration after the decoding step:
/// a decoded configuration becomes current; a decoding error changes nothing.
pub open spec fn load_decoded(current: ConfigView, decoded: Result<ConfigView, Seq<char>>) -> (
    Result<ConfigView, Seq<char>>,
    ConfigView,
) {
    match decoded {
        Ok(c) => (Ok(c), c),
        Err(e) => (Err(e), current),
    }
}

/// The answer after saving an upgraded configuration.
pub open spec fn load_saved(result: ConfigView, saved: bool) -> Result<ConfigView, Seq<char>> {
    if saved {
        Ok(result)
    } else {
        Err("Save failed"@)
    }
}

/// Second step of loading: the decision on the version comparison. Only an
/// upgrade changes `current`: it becomes the upgraded configuration, which
/// is then to be saved.
///
/// For an upgrade the program's configuration is taken as the table that its
/// serialization gives (`colormode` and `version`, both strings), the keys
/// that the file lacks are added to the file's table, and the result is
/// decoded as a configuration the way its derived deserialization reads a
/// table (`decode_table`); on these values neither conversion can fail, so
/// the answers "Update failed" and "Convert failed" of those conversions do
/// not occur.
pub fn config_load_compared(current: &mut Config, check: VersionCheck, compared: Result<
    i8,
    String,
>) -> (next: LoadNext)
    ensures
        next@ == load_compared(old(current)@, check_view(check), compared_view(compared)),
        next matches LoadNext::Save(c) ==> *final(current) == c,
        !(next is Save) ==> *final(current) == *old(current),
        final(current)@ == config_after_compared(old(current)@, check_view(check), compared_view(compared)),
{
    let c = match compared {
        Ok(c) => c,
        Err(e) => return LoadNext::Done(Err(e)),
    };
    if c == 0 {
        LoadNext::DecodeFile(check.text)
    } else if c == 1 {
        LoadNext::Done(Err(String::from_str("Outdate version")))
    } else if c == -1 {
        let mut merged = check.table;
        insert_missing_entry(
            &mut merged,
            TomlEntry {
                key: String::from_str("colormode"),
                value: TomlItem::Str(current.colormode.clone()),
            },
        );
        insert_missing_entry(
            &mut merged,
            TomlEntry {
                key: String::from_str("version"),
                value: TomlItem::Str(current.version.clone()),
            },
        );
        let version_key = String::from_str("version");
        let colormode_key = String::from_str("colormode");
        let decoded = match (get_entry(&merged, &version_key), get_entry(&merged, &colormode_key)) {
            (Some(TomlItem::Str(v)), Some(TomlItem::Str(cm))) => Config {
                version: v.clone(),
                colormode: cm.clone(),
            },
            _ => return LoadNext::Done(Err(String::from_str("Parse failed"))),
        };
        let result = Config { version: current.version.clone(), colormode: decoded.colormode };
        assign_config(current, &result);
        LoadNext::Save(result)
    } else {
        LoadNext::Done(Err(String::from_str("Imposible case")))
    }
}

/// Third step when the versions were equal: `decoded` is the file decoded
/// as a configuration (or the error's text). On success it becomes the
/// current configuration.
pub fn config_load_decoded(current: &mut Config, decoded: Result<Config, String>) -> (r: Result<
    Config,
    String,
>)
    ensures
        r == decoded,
        match decoded {
            Ok(c) => *final(current) == c,
            Err(_) => *final(current) == *old(current),
        },
        (config_result_view(r), final(current)@) == load_decoded(old(current)@, config_result_view(decoded)),
{
    match decoded {
        Ok(config) => {
            assign_config(current, &config);
            Ok(config)
        },
        Err(e) => Err(e),
    }
}

/// Last step of an upgrade: the answer once saving `result` gave `saved`.
pub fn config_load_saved(result: Config, saved: Result<(), String>) -> (r: Result<Config, String>)
    ensures
        saved is Ok ==> r == Ok::<Config, String>(result),
        saved is Err ==> r is Err && r->Err_0@ == "Save failed"@,
        config_result_view(r) == load_saved(result@, saved is Ok),
{
    match saved {
        Ok(()) => Ok(result),
        Err(_) => Err(String::from_str("Save failed")),
    }
}


// ---------------------------------------------------------------------------
// Saving the configuration file.

/// The TOML text of a string value: what `toml::Value::String(s).to_string()`
/// gives (a quoted string).
pub uninterp spec fn toml_string_repr(s: Seq<char>) -> Seq<char>;

/// Writes `s` as a TOML string value with the Display of
/// `toml::Value::String` (toml crate). The contract names the result
/// (`toml_string_repr`) and claims nothing more of it.
#[verifier::external_body]
fn toml_string(s: &str) -> (r: String)
    ensures
        r@ == toml_string_repr(s@),
{
    toml::Value::String(s.to_string()).to_string()
}

/// The text of the configuration file for `config`: its two keys, each on a
/// line of its own, in the order of the configuration's fields.
pub open spec fn config_file_text(config: ConfigView) -> Seq<char> {
    "version = "@ + toml_string_repr(config.version) + "\ncolormode = "@ + toml_string_repr(
        config.colormode,
    ) + "\n"@
}

/// The text that saving writes to the configuration file.
pub fn config_text(config: &Config) -> (text: String)
    ensures
        text@ == config_file_text(config@),
        text@ == "version = "@ + toml_string_repr(config.version@) + "\ncolormode = "@
            + toml_string_repr(config.colormode@) + "\n"@,
{
    let mut text = String::from_str("version = ");
    let v = toml_string(config.version.as_str());
    text.append(v.as_str());
    text.append("\ncolormode = ");
    let c = toml_string(config.colormode.as_str());
    text.append(c.as_str());
    text.append("\n");
    text
}


// ---------------------------------------------------------------------------
// Laws of loading.

/// Upgrading a file whose `version` is a string stamps the program's
/// version and keeps the file's colour mode; a file without one takes the
/// program's, and one whose colour mode is not a string cannot be upgraded.
pub proof fn law_upgrade_stamps_program_version(t: TableView, current: ConfigView, file_version: Seq<char>)
    requires
        lookup(t, "version"@) == Some(TomlItemView::Str(file_version)),
    ensures
        match lookup(t, "colormode"@) {
            Some(TomlItemView::Str(c)) => upgraded(t, current) == Some(
                ConfigView { version: current.version, colormode: c },
            ),
            None => upgraded(t, current) == Some(current),
            Some(TomlItemView::Other) => upgraded(t, current) is None,
        },
{
    reveal_strlit("version");
    reveal_strlit("colormode");
    assert("version"@.len() != "colormode"@.len());
    let ce = ("colormode"@, TomlItemView::Str(current.colormode));
    let ve = ("version"@, TomlItemView::Str(current.version));
    let t1 = insert_missing(t, ce);
    lemma_lookup_push(t, ce, "version"@);
    lemma_lookup_push(t, ce, "colormode"@);
    lemma_lookup_push(t1, ve, "version"@);
    lemma_lookup_push(t1, ve, "colormode"@);
}


/// The only configuration that loading makes current from a comparison is
/// an upgrade, taken when the program's version is the greater, and it
/// carries the program's version; the file is decoded as it stands only
/// when the comparison found the two versions equal.
pub proof fn law_loaded_config_version(
    current: ConfigView,
    check: (Seq<char>, TableView, Seq<char>),
    compared: Result<i8, Seq<char>>,
)
    ensures
        load_compared(current, check, compared) matches LoadNextView::Save(u) ==> u.version
            == current.version && compared == Ok::<i8, Seq<char>>(-1i8),
        load_compared(current, check, compared) is DecodeFile ==> compared == Ok::<i8, Seq<char>>(0i8),
{
}


/// A whole load, from the outcomes of its outside calls: reading the file,
/// comparing the versions, decoding the file (used when the versions are
/// equal) and saving (used after an upgrade). The answer and the current
/// configuration at the end.
pub open spec fn load_whole(
    current: ConfigView,
    read: Result<Seq<char>, Seq<char>>,
    compared: Result<i8, Seq<char>>,
    decoded: Result<ConfigView, Seq<char>>,
    saved: bool,
) -> (Result<ConfigView, Seq<char>>, ConfigView) {
    match load_begin(read) {
        Err(e) => (Err(e), current),
        Ok(check) => match load_compared(current, check, compared) {
            LoadNextView::Done(r) => (r, config_after_compared(current, check, compared)),
            LoadNextView::DecodeFile(_) => load_decoded(current, decoded),
            LoadNextView::Save(u) => (load_saved(u, saved), config_after_compared(current, check, compared)),
        },
    }
}

/// Across the steps of a load: a configuration that the load answers with
/// is the current one at the end; a load that fails leaves the current
/// configuration as it was, except when saving an upgraded configuration
/// failed: the answer is then "Save failed" and the upgraded configuration,
/// which carries the program's version, is already current.
pub proof fn law_failed_load_keeps_config(
    current: ConfigView,
    read: Result<Seq<char>, Seq<char>>,
    compared: Result<i8, Seq<char>>,
    decoded: Result<ConfigView, Seq<char>>,
    saved: bool,
)
    ensures
        ({
            let (answer, after) = load_whole(current, read, compared, decoded, saved);
            &&& answer matches Ok(c) ==> after == c
            &&& answer is Err && after != current ==> {
                &&& !saved
                &&& answer == Err::<ConfigView, Seq<char>>("Save failed"@)
                &&& load_begin(read) is Ok
                &&& compared == Ok::<i8, Seq<char>>(-1i8)
                &&& upgraded(load_begin(read)->Ok_0.1, current) == Some(after)
                &&& after.version == current.version
            }
        }),
{
}


/// The step after the comparison, by its outcome: an error is the answer;
/// equal versions decode the file's own text; a newer file is refused as
/// "Outdate version"; any number other than -1, 0 and 1 gives
/// "Imposible case".
pub proof fn law_compared_by_outcome(
    current: ConfigView,
    check: (Seq<char>, TableView, Seq<char>),
    e: Seq<char>,
    k: i8,
)
    ensures
        load_compared(current, check, Err(e)) == LoadNextView::Done(Err(e)),
        load_compared(current, check, Ok(0i8)) == LoadNextView::DecodeFile(check.0),
        load_compared(current, check, Ok(1i8)) == LoadNextView::Done(Err("Outdate version"@)),
        k != 0 && k != 1 && k != -1 ==> load_compared(current, check, Ok(k)) == LoadNextView::Done(
            Err("Imposible case"@),
        ),
        config_after_compared(current, check, Err(e)) == current,
        config_after_compared(current, check, Ok(0i8)) == current,
        config_after_compared(current, check, Ok(1i8)) == current,
{
}

/// An older file (comparison -1) whose `version` is a string is always
/// upgraded and saved when its colour mode is a string, which it keeps, or
/// missing, when it takes the program's; the upgraded configuration carries
/// the program's version and becomes current. Only a colour mode that is
/// not a string makes the upgrade fail.
pub proof fn law_older_file_is_upgraded(
    current: ConfigView,
    check: (Seq<char>, TableView, Seq<char>),
    file_version: Seq<char>,
)
    requires
        lookup(check.1, "version"@) == Some(TomlItemView::Str(file_version)),
    ensures
        match lookup(check.1, "colormode"@) {
            Some(TomlItemView::Str(c)) => {
                &&& load_compared(current, check, Ok(-1i8)) == LoadNextView::Save(
                    ConfigView { version: current.version, colormode: c },
                )
                &&& config_after_compared(current, check, Ok(-1i8)) == (ConfigView {
                    version: current.version,
                    colormode: c,
                })
            },
            None => {
                &&& load_compared(current, check, Ok(-1i8)) == LoadNextView::Save(current)
                &&& config_after_compared(current, check, Ok(-1i8)) == current
            },
            Some(TomlItemView::Other) => {
                &&& load_compared(current, check, Ok(-1i8)) == LoadNextView::Done(
                    Err("Parse failed"@),
                )
                &&& config_after_compared(current, check, Ok(-1i8)) == current
            },
        },
{
    law_upgrade_stamps_program_version(check.1, current, file_version);
}

/// The first step of loading, by the read and the parse: the read's error,
/// the parser's error, a document that is not a table, a table without a
/// `version` or with one that is not a string are refused; a string
/// `version` is handed on with the text and the table.
pub proof fn law_begin_by_document(read_error: Seq<char>, text: Seq<char>, t: TableView, v: Seq<char>)
    ensures
        load_begin(Err(read_error)) == Err::<(Seq<char>, TableView, Seq<char>), Seq<char>>(read_error),
        toml_parse(text) matches Err(pe) ==> load_begin(Ok(text)) == Err::<
            (Seq<char>, TableView, Seq<char>),
            Seq<char>,
        >(pe),
        toml_parse(text) == Ok::<TomlDocView, Seq<char>>(TomlDocView::NotTable) ==> load_begin(
            Ok(text),
        ) == Err::<(Seq<char>, TableView, Seq<char>), Seq<char>>("Invalid data"@),
        toml_parse(text) == Ok::<TomlDocView, Seq<char>>(TomlDocView::Table(t)) ==> {
            &&& lookup(t, "version"@) is None ==> load_begin(Ok(text)) == Err::<
                (Seq<char>, TableView, Seq<char>),
                Seq<char>,
            >("Corrupted file"@)
            &&& lookup(t, "version"@) == Some(TomlItemView::Other) ==> load_begin(Ok(text))
                == Err::<(Seq<char>, TableView, Seq<char>), Seq<char>>("Parse failed"@)
            &&& lookup(t, "version"@) == Some(TomlItemView::Str(v)) ==> load_begin(Ok(text))
                == Ok::<(Seq<char>, TableView, Seq<char>), Seq<char>>((text, t, v))
        },
{
}

/// The saved text carries the whole configuration: it starts with the line
/// `version = ` and the TOML string of the whole version, and ends with the
/// line `colormode = ` and the TOML string of the whole colour mode; two
/// configurations with the same fields give the same text.
pub proof fn law_config_text_carries_config(c: ConfigView, d: ConfigView)
    ensures
        ({
            let text = config_file_text(c);
            let first = "version = "@ + toml_string_repr(c.version) + "\n"@;
            let last = "colormode = "@ + toml_string_repr(c.colormode) + "\n"@;
            &&& text == first + last
            &&& text.take(first.len() as int) == first
            &&& text.skip(first.len() as int) == last
        }),
        c == d ==> config_file_text(c) == config_file_text(d),
{
    let text = config_file_text(c);
    let first = "version = "@ + toml_string_repr(c.version) + "\n"@;
    let last = "colormode = "@ + toml_string_repr(c.colormode) + "\n"@;
    reveal_strlit("\ncolormode = ");
    reveal_strlit("\n");
    reveal_strlit("colormode = ");
    assert("\ncolormode = "@ =~= "\n"@ + "colormode = "@);
    assert(text =~= first + last);
    assert((first + last).take(first.len() as int) =~= first);
    assert((first + last).skip(first.len() as int) =~= last);
}

/// The names of the task states are their variants' names, and no two
/// states share one.
pub proof fn law_status_names(s: StaskStatus, t: StaskStatus)
    ensures
        s == StaskStatus::Wait ==> status_text(s) == "Wait"@,
        s == StaskStatus::Completed ==> status_text(s) == "Completed"@,
        s == StaskStatus::NoNeed ==> status_text(s) == "NoNeed"@,
        status_text(s) == status_text(t) ==> s == t,
{
    reveal_strlit("Wait");
    reveal_strlit("Completed");
    reveal_strlit("NoNeed");
    assert("Wait"@.len() != "Completed"@.len());
    assert("Wait"@.len() != "NoNeed"@.len());
    assert("NoNeed"@.len() != "Completed"@.len());
}

} // verus!
