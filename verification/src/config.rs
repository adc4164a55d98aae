//! The project configuration file (`scaffold.toml`): its model, the parser
//! and the writer.

use vstd::prelude::*;
use crate::text::{
    to_chars, string_of_range, string_of_chars, trim, trim_range, lines, line_ranges, parse_u16,
    parse_u16_range, decimal, decimal_string, join_lines, lacks, is_ws, trim_start, trim_end,
    strip_cr, lemma_lines_of_join, bool_text, lemma_decimal_digits, lemma_parse_decimal, is_digit,
    split_on, lemma_split_on_extend, lemma_split_on_nonempty, lemma_lines_concat, lemma_lines_one, lemma_trim_strip_cr,
};

verus! {

/// Where the LSSA repository comes from.
#[derive(Debug, Clone, PartialEq, Eq)]
pub struct RepoRef {
    pub url: String,
    pub source: String,
    pub path: String,
    pub pin: String,
}

/// Settings of the local sequencer.
#[derive(Debug, Clone, PartialEq, Eq)]
pub struct LocalnetConfig {
    pub port: u16,
    pub risc0_dev_mode: bool,
}

/// Where the framework's interface description lives.
#[derive(Debug, Clone, PartialEq, Eq)]
pub struct FrameworkIdlConfig {
    pub spec: String,
    pub path: String,
}

/// The program framework that the project builds on.
#[derive(Debug, Clone, PartialEq, Eq)]
pub struct FrameworkConfig {
    pub kind: String,
    pub version: String,
    pub idl: FrameworkIdlConfig,
}

/// The whole project configuration.
#[derive(Debug, Clone, PartialEq, Eq)]
pub struct Config {
    pub version: String,
    pub cache_root: String,
    pub lssa: RepoRef,
    pub wallet_home_dir: String,
    pub localnet: LocalnetConfig,
    pub framework: FrameworkConfig,
}

/// The mathematical value of a [`Config`]: every setting, flattened.
pub struct ConfigView {
    pub version: Seq<char>,
    pub cache_root: Seq<char>,
    pub lssa_url: Seq<char>,
    pub lssa_source: Seq<char>,
    pub lssa_path: Seq<char>,
    pub lssa_pin: Seq<char>,
    pub wallet_home_dir: Seq<char>,
    pub port: u16,
    pub risc0_dev_mode: bool,
    pub framework_kind: Seq<char>,
    pub framework_version: Seq<char>,
    pub idl_spec: Seq<char>,
    pub idl_path: Seq<char>,
}

impl View for Config {
    type V = ConfigView;

    open spec fn view(&self) -> ConfigView {
        ConfigView {
            version: self.version@,
            cache_root: self.cache_root@,
            lssa_url: self.lssa.url@,
            lssa_source: self.lssa.source@,
            lssa_path: self.lssa.path@,
            lssa_pin: self.lssa.pin@,
            wallet_home_dir: self.wallet_home_dir@,
            port: self.localnet.port,
            risc0_dev_mode: self.localnet.risc0_dev_mode,
            framework_kind: self.framework.kind@,
            framework_version: self.framework.version@,
            idl_spec: self.framework.idl.spec@,
            idl_path: self.framework.idl.path@,
        }
    }
}

/// Why a configuration text is refused.
#[derive(Debug, Clone, Copy, PartialEq, Eq, Structural)]
pub enum ConfigError {
    /// `[scaffold]` lacks `version` or `cache_root`.
    MissingScaffoldKeys,
    /// `[repos.lssa]` lacks `source`, `path` or `pin`.
    MissingRepoKeys,
}

impl ConfigError {
    /// The message that the command line prints for this error.
    pub fn message(&self) -> (s: String)
        ensures
            s@ == self.message_text(),
    {
        match self {
            ConfigError::MissingScaffoldKeys => String::from_str(
                "invalid scaffold.toml: missing [scaffold] keys",
            ),
            ConfigError::MissingRepoKeys => String::from_str(
                "invalid scaffold.toml: missing required repos.lssa keys",
            ),
        }
    }

    pub open spec fn message_text(&self) -> Seq<char> {
        match self {
            ConfigError::MissingScaffoldKeys => "invalid scaffold.toml: missing [scaffold] keys"@,
            ConfigError::MissingRepoKeys => "invalid scaffold.toml: missing required repos.lssa keys"@,
        }
    }
}

/// The repository that `[repos.lssa]` points at when it gives no `url`.
pub const LSSA_URL: &'static str = "https://github.com/logos-blockchain/lssa.git";

/// The wallet directory when `[wallet]` gives no `home_dir`.
pub const DEFAULT_WALLET_HOME_DIR: &'static str = ".scaffold/wallet";

/// The framework kind when `[framework]` gives no `kind`.
pub const FRAMEWORK_KIND_DEFAULT: &'static str = "default";

/// The framework version when `[framework]` gives no `version`.
pub const DEFAULT_FRAMEWORK_VERSION: &'static str = "0.1.0";

/// The interface description format when `[framework.idl]` gives no `spec`.
pub const DEFAULT_FRAMEWORK_IDL_SPEC: &'static str = "lez-idl";

/// The interface description directory when `[framework.idl]` gives no `path`.
pub const DEFAULT_FRAMEWORK_IDL_PATH: &'static str = "idl";

/// The sequencer port when `[localnet]` gives none that parses.
pub const DEFAULT_LOCALNET_PORT: u16 = 3040;

/// `s` without one pair of surrounding double quotes, if it has them.
pub open spec fn unquoted(s: Seq<char>) -> Seq<char> {
    if s.len() >= 2 && s[0] == '"' && s.last() == '"' {
        s.subrange(1, s.len() - 1)
    } else {
        s
    }
}

/// How one character is written inside a quoted value.
pub open spec fn escaped_char(c: char) -> Seq<char> {
    if c == '\\' {
        seq!['\\', '\\']
    } else if c == '"' {
        seq!['\\', '"']
    } else {
        seq![c]
    }
}

/// `s` with every backslash doubled and every double quote preceded by a
/// backslash.
pub open spec fn escaped(s: Seq<char>) -> Seq<char>
    decreases s.len(),
{
    if s.len() == 0 {
        Seq::<char>::empty()
    } else {
        escaped(s.drop_last()) + escaped_char(s.last())
    }
}

/// Strips one pair of surrounding double quotes from `value`.
pub fn unquote(value: &str) -> (r: String)
    ensures
        r@ == unquoted(value@),
{
    let v = to_chars(value);
    let n = v.len();
    if n >= 2 && v[0] == '"' && v[n - 1] == '"' {
        string_of_range(&v, 1, n - 1)
    } else {
        string_of_chars(&v)
    }
}

/// Escapes backslashes and double quotes for a quoted value.
pub fn escape_toml_string(s: &str) -> (r: String)
    ensures
        r@ == escaped(s@),
{
    let v = to_chars(s);
    let mut r = String::new();
    let mut i: usize = 0;
    while i < v.len()
        invariant
            i <= v@.len(),
            r@ == escaped(v@.take(i as int)),
        decreases v@.len() - i,
    {
        let c = v[i];
        assert(v@.take(i + 1).drop_last() == v@.take(i as int));
        if c == '\\' {
            r.append("\\\\");
        } else if c == '"' {
            r.append("\\\"");
        } else {
            crate::text::push_char(&mut r, c);
        }
        proof {
            reveal_strlit("\\\\");
            reveal_strlit("\\\"");
        }
        assert(r@ == escaped(v@.take(i + 1)));
        i = i + 1;
    }
    assert(v@.take(v@.len() as int) == v@);
    r
}


/// Where in a line the first `c` stands, or the line's length if none does.
pub open spec fn first_index_of(s: Seq<char>, c: char) -> int
    decreases s.len(),
{
    if s.len() == 0 {
        0
    } else if s[0] == c {
        0
    } else {
        1 + first_index_of(s.drop_first(), c)
    }
}

/// The first `c` stands at `j` when none stands before it.
pub proof fn lemma_first_index_of(s: Seq<char>, c: char, j: int)
    requires
        0 <= j <= s.len(),
        forall|k: int| 0 <= k < j ==> s[k] != c,
        j == s.len() || s[j] == c,
    ensures
        first_index_of(s, c) == j,
    decreases j,
{
    if j > 0 {
        lemma_first_index_of(s.drop_first(), c, j - 1);
    }
}

/// The key of a `key = value` line: what stands before the first `=`, trimmed.
pub open spec fn line_key(line: Seq<char>) -> Seq<char> {
    trim(line.take(first_index_of(line, '=')))
}

/// The value of a `key = value` line: what stands after the first `=`,
/// trimmed and unquoted; empty where the line has no `=`.
pub open spec fn line_value(line: Seq<char>) -> Seq<char> {
    let i = first_index_of(line, '=');
    if i < line.len() {
        unquoted(trim(line.skip(i + 1)))
    } else {
        Seq::<char>::empty()
    }
}

/// The settings as the scan has collected them so far, before defaults.
pub open spec fn initial_settings() -> ConfigView {
    ConfigView {
        version: Seq::<char>::empty(),
        cache_root: Seq::<char>::empty(),
        lssa_url: Seq::<char>::empty(),
        lssa_source: Seq::<char>::empty(),
        lssa_path: Seq::<char>::empty(),
        lssa_pin: Seq::<char>::empty(),
        wallet_home_dir: Seq::<char>::empty(),
        port: 3040,
        risc0_dev_mode: true,
        framework_kind: Seq::<char>::empty(),
        framework_version: Seq::<char>::empty(),
        idl_spec: Seq::<char>::empty(),
        idl_path: Seq::<char>::empty(),
    }
}

/// What `key = value` in `section` does to the settings. Keys that the
/// format does not know, and sections it does not know, change nothing.
pub open spec fn apply_setting(
    c: ConfigView,
    section: Seq<char>,
    key: Seq<char>,
    value: Seq<char>,
) -> ConfigView {
    if section == "scaffold"@ {
        if key == "version"@ {
            ConfigView { version: value, ..c }
        } else if key == "cache_root"@ {
            ConfigView { cache_root: value, ..c }
        } else {
            c
        }
    } else if section == "repos.lssa"@ {
        if key == "url"@ {
            ConfigView { lssa_url: value, ..c }
        } else if key == "source"@ {
            ConfigView { lssa_source: value, ..c }
        } else if key == "path"@ {
            ConfigView { lssa_path: value, ..c }
        } else if key == "pin"@ {
            ConfigView { lssa_pin: value, ..c }
        } else {
            c
        }
    } else if section == "framework"@ {
        if key == "kind"@ {
            ConfigView { framework_kind: value, ..c }
        } else if key == "version"@ {
            ConfigView { framework_version: value, ..c }
        } else {
            c
        }
    } else if section == "framework.idl"@ {
        if key == "spec"@ {
            ConfigView { idl_spec: value, ..c }
        } else if key == "path"@ {
            ConfigView { idl_path: value, ..c }
        } else {
            c
        }
    } else if section == "wallet"@ {
        if key == "home_dir"@ {
            ConfigView { wallet_home_dir: value, ..c }
        } else {
            c
        }
    } else if section == "localnet"@ {
        if key == "port"@ {
            match parse_u16(value) {
                Some(p) => ConfigView { port: p, ..c },
                None => c,
            }
        } else if key == "risc0_dev_mode"@ {
            ConfigView { risc0_dev_mode: value != "false"@ && value != "0"@, ..c }
        } else {
            c
        }
    } else {
        c
    }
}

/// The state of a scan: the section that the last header opened, and the
/// settings so far.
pub struct Scan {
    pub section: Seq<char>,
    pub settings: ConfigView,
}

/// What one line does to the scan: blank lines and `#` comments nothing, a
/// `[name]` header opens a section, any other line is a setting.
pub open spec fn scan_line(st: Scan, raw: Seq<char>) -> Scan {
    let line = trim(raw);
    if line.len() == 0 || line[0] == '#' {
        st
    } else if line[0] == '[' && line.last() == ']' {
        Scan { section: line.subrange(1, line.len() - 1), settings: st.settings }
    } else {
        Scan {
            section: st.section,
            settings: apply_setting(st.settings, st.section, line_key(line), line_value(line)),
        }
    }
}

/// The scan after the given lines, from no section and no settings.
pub open spec fn scan_lines(ls: Seq<Seq<char>>) -> Scan
    decreases ls.len(),
{
    if ls.len() == 0 {
        Scan { section: Seq::<char>::empty(), settings: initial_settings() }
    } else {
        scan_line(scan_lines(ls.drop_last()), ls.last())
    }
}

/// `s`, or `default` where `s` is empty.
pub open spec fn or_default(s: Seq<char>, default: Seq<char>) -> Seq<char> {
    if s.len() == 0 {
        default
    } else {
        s
    }
}

/// The configuration that the collected settings make: the required keys
/// checked, the optional ones given their defaults.
pub open spec fn settings_to_config(c: ConfigView) -> Result<ConfigView, ConfigError> {
    if c.version.len() == 0 || c.cache_root.len() == 0 {
        Err(ConfigError::MissingScaffoldKeys)
    } else if c.lssa_source.len() == 0 || c.lssa_path.len() == 0 || c.lssa_pin.len() == 0 {
        Err(ConfigError::MissingRepoKeys)
    } else {
        Ok(
            ConfigView {
                lssa_url: or_default(c.lssa_url, LSSA_URL@),
                wallet_home_dir: or_default(c.wallet_home_dir, DEFAULT_WALLET_HOME_DIR@),
                framework_kind: or_default(c.framework_kind, FRAMEWORK_KIND_DEFAULT@),
                framework_version: or_default(c.framework_version, DEFAULT_FRAMEWORK_VERSION@),
                idl_spec: or_default(c.idl_spec, DEFAULT_FRAMEWORK_IDL_SPEC@),
                idl_path: or_default(c.idl_path, DEFAULT_FRAMEWORK_IDL_PATH@),
                ..c
            },
        )
    }
}

/// What the configuration text means.
pub open spec fn parsed_config(text: Seq<char>) -> Result<ConfigView, ConfigError> {
    settings_to_config(scan_lines(lines(text)).settings)
}

/// Whether `v[start..end]` spells `lit`.
pub fn range_is(v: &Vec<char>, start: usize, end: usize, lit: &str) -> (r: bool)
    requires
        start <= end <= v@.len(),
    ensures
        r == (v@.subrange(start as int, end as int) == lit@),
{
    let l = to_chars(lit);
    if end - start != l.len() {
        return false;
    }
    let mut i: usize = 0;
    while i < l.len()
        invariant
            start <= end <= v@.len(),
            end - start == l@.len(),
            l@ == lit@,
            i <= l@.len(),
            forall|k: int| 0 <= k < i ==> v@[start + k] == l@[k],
        decreases l@.len() - i,
    {
        if v[start + i] != l[i] {
            assert(v@.subrange(start as int, end as int)[i as int] != lit@[i as int]);
            return false;
        }
        i = i + 1;
    }
    assert(v@.subrange(start as int, end as int) =~= lit@);
    true
}


/// Where, in the characters of the text, the scan found the current section
/// and each setting so far.
struct ScanPlaces {
    section: (usize, usize),
    version: (usize, usize),
    cache_root: (usize, usize),
    lssa_url: (usize, usize),
    lssa_source: (usize, usize),
    lssa_path: (usize, usize),
    lssa_pin: (usize, usize),
    wallet_home_dir: (usize, usize),
    port: u16,
    risc0_dev_mode: bool,
    framework_kind: (usize, usize),
    framework_version: (usize, usize),
    idl_spec: (usize, usize),
    idl_path: (usize, usize),
}

/// A range that lies within `n` characters.
spec fn fits(r: (usize, usize), n: nat) -> bool {
    r.0 <= r.1 <= n
}

/// The characters of `v` in the range `r`.
spec fn text_at(v: Seq<char>, r: (usize, usize)) -> Seq<char> {
    v.subrange(r.0 as int, r.1 as int)
}

impl ScanPlaces {
    spec fn fits_in(&self, n: nat) -> bool {
        &&& fits(self.section, n)
        &&& fits(self.version, n)
        &&& fits(self.cache_root, n)
        &&& fits(self.lssa_url, n)
        &&& fits(self.lssa_source, n)
        &&& fits(self.lssa_path, n)
        &&& fits(self.lssa_pin, n)
        &&& fits(self.wallet_home_dir, n)
        &&& fits(self.framework_kind, n)
        &&& fits(self.framework_version, n)
        &&& fits(self.idl_spec, n)
        &&& fits(self.idl_path, n)
    }

    spec fn settings_in(&self, v: Seq<char>) -> ConfigView {
        ConfigView {
            version: text_at(v, self.version),
            cache_root: text_at(v, self.cache_root),
            lssa_url: text_at(v, self.lssa_url),
            lssa_source: text_at(v, self.lssa_source),
            lssa_path: text_at(v, self.lssa_path),
            lssa_pin: text_at(v, self.lssa_pin),
            wallet_home_dir: text_at(v, self.wallet_home_dir),
            port: self.port,
            risc0_dev_mode: self.risc0_dev_mode,
            framework_kind: text_at(v, self.framework_kind),
            framework_version: text_at(v, self.framework_version),
            idl_spec: text_at(v, self.idl_spec),
            idl_path: text_at(v, self.idl_path),
        }
    }

    spec fn scan_in(&self, v: Seq<char>) -> Scan {
        Scan { section: text_at(v, self.section), settings: self.settings_in(v) }
    }
}

/// Records `key = value` of the current section, as `apply_setting` says.
fn apply_setting_at(v: &Vec<char>, st: &mut ScanPlaces, key: (usize, usize), value: (usize, usize))
    requires
        old(st).fits_in(v@.len()),
        fits(key, v@.len()),
        fits(value, v@.len()),
    ensures
        final(st).fits_in(v@.len()),
        final(st).scan_in(v@) == (Scan {
            section: old(st).scan_in(v@).section,
            settings: apply_setting(
                old(st).settings_in(v@),
                text_at(v@, old(st).section),
                text_at(v@, key),
                text_at(v@, value),
            ),
        }),
{
    let (ss, se) = st.section;
    let (ks, ke) = key;
    let (vs, ve) = value;
    if range_is(v, ss, se, "scaffold") {
        if range_is(v, ks, ke, "version") {
            st.version = value;
        } else if range_is(v, ks, ke, "cache_root") {
            st.cache_root = value;
        }
    } else if range_is(v, ss, se, "repos.lssa") {
        if range_is(v, ks, ke, "url") {
            st.lssa_url = value;
        } else if range_is(v, ks, ke, "source") {
            st.lssa_source = value;
        } else if range_is(v, ks, ke, "path") {
            st.lssa_path = value;
        } else if range_is(v, ks, ke, "pin") {
            st.lssa_pin = value;
        }
    } else if range_is(v, ss, se, "framework") {
        if range_is(v, ks, ke, "kind") {
            st.framework_kind = value;
        } else if range_is(v, ks, ke, "version") {
            st.framework_version = value;
        }
    } else if range_is(v, ss, se, "framework.idl") {
        if range_is(v, ks, ke, "spec") {
            st.idl_spec = value;
        } else if range_is(v, ks, ke, "path") {
            st.idl_path = value;
        }
    } else if range_is(v, ss, se, "wallet") {
        if range_is(v, ks, ke, "home_dir") {
            st.wallet_home_dir = value;
        }
    } else if range_is(v, ss, se, "localnet") {
        if range_is(v, ks, ke, "port") {
            match parse_u16_range(v, vs, ve) {
                Some(p) => {
                    st.port = p;
                },
                None => {},
            }
        } else if range_is(v, ks, ke, "risc0_dev_mode") {
            let is_false = range_is(v, vs, ve, "false");
            let is_zero = range_is(v, vs, ve, "0");
            st.risc0_dev_mode = !is_false && !is_zero;
        }
    }
}

/// Applies one line, `v[start..end]`, to the scan.
fn scan_line_at(v: &Vec<char>, st: &mut ScanPlaces, start: usize, end: usize)
    requires
        old(st).fits_in(v@.len()),
        start <= end <= v@.len(),
    ensures
        final(st).fits_in(v@.len()),
        final(st).scan_in(v@) == scan_line(old(st).scan_in(v@), v@.subrange(start as int, end as int)),
{
    let ghost raw = v@.subrange(start as int, end as int);
    let (s, e) = trim_range(v, start, end);
    let ghost line = v@.subrange(s as int, e as int);
    assert(line == trim(raw));
    if s == e || v[s] == '#' {
        return;
    }
    if v[s] == '[' && v[e - 1] == ']' {
        st.section = (s + 1, e - 1);
        assert(v@.subrange(s + 1, e - 1) == line.subrange(1, line.len() - 1));
        return;
    }
    let mut j = s;
    while j < e && v[j] != '='
        invariant
            s <= j <= e <= v@.len(),
            forall|k: int| s <= k < j ==> v@[k] != '=',
        decreases e - j,
    {
        j = j + 1;
    }
    proof {
        assert forall|k: int| 0 <= k < j - s implies line[k] != '=' by {
            assert(line[k] == v@[s + k]);
        }
        lemma_first_index_of(line, '=', j - s);
        assert(line.take(j - s) == v@.subrange(s as int, j as int));
    }
    let key = trim_range(v, s, j);
    let value = if j < e {
        let (a, b) = trim_range(v, j + 1, e);
        assert(line.skip(j - s + 1) == v@.subrange(j + 1, e as int));
        if b - a >= 2 && v[a] == '"' && v[b - 1] == '"' {
            assert(v@.subrange(a + 1, b - 1) == v@.subrange(a as int, b as int).subrange(
                1,
                (b - a) - 1,
            ));
            (a + 1, b - 1)
        } else {
            (a, b)
        }
    } else {
        assert(v@.subrange(0, 0) == Seq::<char>::empty());
        (0, 0)
    };
    assert(text_at(v@, value) == line_value(line));
    assert(text_at(v@, key) == line_key(line));
    apply_setting_at(v, st, key, value);
}


/// The text of `r` in `v`, or `default` where `r` is empty.
fn string_or_default(v: &Vec<char>, r: (usize, usize), default: &str) -> (s: String)
    requires
        fits(r, v@.len()),
    ensures
        s@ == or_default(text_at(v@, r), default@),
{
    if r.0 == r.1 {
        String::from_str(default)
    } else {
        string_of_range(v, r.0, r.1)
    }
}

/// Parses the text of `scaffold.toml`.
///
/// Lines are trimmed; blank lines and lines that start with `#` are skipped;
/// `[name]` opens a section; any other line is `key = value`, split at the
/// first `=`, both sides trimmed and the value unquoted. Later settings win.
/// `version` and `cache_root` of `[scaffold]`, and `source`, `path` and `pin`
/// of `[repos.lssa]`, are required (non-empty); the other strings have
/// defaults; a `port` that does not parse as a `u16` is ignored.
pub fn parse_config(text: &str) -> (r: Result<Config, ConfigError>)
    ensures
        match r {
            Ok(c) => parsed_config(text@) == Ok::<ConfigView, ConfigError>(c@),
            Err(e) => parsed_config(text@) == Err::<ConfigView, ConfigError>(e),
        },
{
    let v = to_chars(text);
    let ranges = line_ranges(&v);
    let mut st = ScanPlaces {
        section: (0, 0),
        version: (0, 0),
        cache_root: (0, 0),
        lssa_url: (0, 0),
        lssa_source: (0, 0),
        lssa_path: (0, 0),
        lssa_pin: (0, 0),
        wallet_home_dir: (0, 0),
        port: 3040,
        risc0_dev_mode: true,
        framework_kind: (0, 0),
        framework_version: (0, 0),
        idl_spec: (0, 0),
        idl_path: (0, 0),
    };
    let ghost ls = lines(v@);
    assert(v@.subrange(0, 0) == Seq::<char>::empty());
    assert(ls.take(0) == Seq::<Seq<char>>::empty());
    let mut k: usize = 0;
    while k < ranges.len()
        invariant
            ls == lines(v@),
            ranges@.len() == ls.len(),
            forall|i: int|
                #![trigger ranges@[i]]
                0 <= i < ranges@.len() ==> {
                    &&& ranges@[i].0 <= ranges@[i].1 <= v@.len()
                    &&& v@.subrange(ranges@[i].0 as int, ranges@[i].1 as int) =~= ls[i]
                },
            k <= ranges@.len(),
            st.fits_in(v@.len()),
            st.scan_in(v@) == scan_lines(ls.take(k as int)),
        decreases ranges@.len() - k,
    {
        let (a, b) = ranges[k];
        scan_line_at(&v, &mut st, a, b);
        assert(ls.take(k + 1).drop_last() == ls.take(k as int));
        k = k + 1;
    }
    assert(ls.take(ls.len() as int) == ls);
    let ghost c = st.settings_in(v@);
    assert(c == scan_lines(lines(text@)).settings);
    if st.version.0 == st.version.1 || st.cache_root.0 == st.cache_root.1 {
        return Err(ConfigError::MissingScaffoldKeys);
    }
    if st.lssa_source.0 == st.lssa_source.1 || st.lssa_path.0 == st.lssa_path.1 || st.lssa_pin.0
        == st.lssa_pin.1 {
        return Err(ConfigError::MissingRepoKeys);
    }
    let cfg = Config {
        version: string_of_range(&v, st.version.0, st.version.1),
        cache_root: string_of_range(&v, st.cache_root.0, st.cache_root.1),
        lssa: RepoRef {
            url: string_or_default(&v, st.lssa_url, LSSA_URL),
            source: string_of_range(&v, st.lssa_source.0, st.lssa_source.1),
            path: string_of_range(&v, st.lssa_path.0, st.lssa_path.1),
            pin: string_of_range(&v, st.lssa_pin.0, st.lssa_pin.1),
        },
        wallet_home_dir: string_or_default(&v, st.wallet_home_dir, DEFAULT_WALLET_HOME_DIR),
        localnet: LocalnetConfig { port: st.port, risc0_dev_mode: st.risc0_dev_mode },
        framework: FrameworkConfig {
            kind: string_or_default(&v, st.framework_kind, FRAMEWORK_KIND_DEFAULT),
            version: string_or_default(&v, st.framework_version, DEFAULT_FRAMEWORK_VERSION),
            idl: FrameworkIdlConfig {
                spec: string_or_default(&v, st.idl_spec, DEFAULT_FRAMEWORK_IDL_SPEC),
                path: string_or_default(&v, st.idl_path, DEFAULT_FRAMEWORK_IDL_PATH),
            },
        },
    };
    assert(cfg@ == settings_to_config(c).unwrap());
    Ok(cfg)
}


/// A `key = "value"` line, the value escaped.
pub open spec fn quoted_setting(key: Seq<char>, value: Seq<char>) -> Seq<char> {
    key + " = \""@ + escaped(value) + "\""@
}

/// The lines of the written configuration, in order.
pub open spec fn config_lines(c: ConfigView) -> Seq<Seq<char>> {
    seq![
        "[scaffold]"@,
        quoted_setting("version"@, c.version),
        quoted_setting("cache_root"@, c.cache_root),
        Seq::<char>::empty(),
        "[repos.lssa]"@,
        quoted_setting("url"@, c.lssa_url),
        quoted_setting("source"@, c.lssa_source),
        quoted_setting("path"@, c.lssa_path),
        quoted_setting("pin"@, c.lssa_pin),
        Seq::<char>::empty(),
        "[wallet]"@,
        quoted_setting("home_dir"@, c.wallet_home_dir),
        Seq::<char>::empty(),
        "[framework]"@,
        quoted_setting("kind"@, c.framework_kind),
        quoted_setting("version"@, c.framework_version),
        Seq::<char>::empty(),
        "[framework.idl]"@,
        quoted_setting("spec"@, c.idl_spec),
        quoted_setting("path"@, c.idl_path),
        Seq::<char>::empty(),
        "[localnet]"@,
        "port = "@ + decimal(c.port as nat),
        "risc0_dev_mode = "@ + bool_text(c.risc0_dev_mode),
    ]
}

/// The text that `serialize_config` writes for `c`.
pub open spec fn serialized_config(c: ConfigView) -> Seq<char> {
    join_lines(config_lines(c))
}

/// Appends `line` and a line break to the lines `ls` written so far.
fn push_line(out: &mut String, line: &str, Ghost(ls): Ghost<Seq<Seq<char>>>)
    requires
        old(out)@ == join_lines(ls),
    ensures
        final(out)@ == join_lines(ls.push(line@)),
{
    out.append(line);
    crate::text::push_char(out, '\n');
    assert(ls.push(line@).drop_last() == ls);
}

/// `key = "value"`, the value escaped.
fn quoted_setting_line(key: &str, value: &str) -> (s: String)
    ensures
        s@ == quoted_setting(key@, value@),
{
    let mut s = String::from_str(key);
    s.append(" = \"");
    let e = escape_toml_string(value);
    s.append(e.as_str());
    s.append("\"");
    s
}

/// Writes the configuration in the format that `parse_config` reads.
pub fn serialize_config(cfg: &Config) -> (s: String)
    ensures
        s@ == serialized_config(cfg@),
{
    let mut out = String::new();
    let ghost mut ls: Seq<Seq<char>> = Seq::empty();
    assert(out@ == join_lines(ls));
    push_line(&mut out, "[scaffold]", Ghost(ls));
    proof { ls = ls.push("[scaffold]"@); }
    let l = quoted_setting_line("version", cfg.version.as_str());
    push_line(&mut out, l.as_str(), Ghost(ls));
    proof { ls = ls.push(l@); }
    let l = quoted_setting_line("cache_root", cfg.cache_root.as_str());
    push_line(&mut out, l.as_str(), Ghost(ls));
    proof { ls = ls.push(l@); }
    push_line(&mut out, "", Ghost(ls));
    proof { ls = ls.push(""@); }
    push_line(&mut out, "[repos.lssa]", Ghost(ls));
    proof { ls = ls.push("[repos.lssa]"@); }
    let l = quoted_setting_line("url", cfg.lssa.url.as_str());
    push_line(&mut out, l.as_str(), Ghost(ls));
    proof { ls = ls.push(l@); }
    let l = quoted_setting_line("source", cfg.lssa.source.as_str());
    push_line(&mut out, l.as_str(), Ghost(ls));
    proof { ls = ls.push(l@); }
    let l = quoted_setting_line("path", cfg.lssa.path.as_str());
    push_line(&mut out, l.as_str(), Ghost(ls));
    proof { ls = ls.push(l@); }
    let l = quoted_setting_line("pin", cfg.lssa.pin.as_str());
    push_line(&mut out, l.as_str(), Ghost(ls));
    proof { ls = ls.push(l@); }
    push_line(&mut out, "", Ghost(ls));
    proof { ls = ls.push(""@); }
    push_line(&mut out, "[wallet]", Ghost(ls));
    proof { ls = ls.push("[wallet]"@); }
    let l = quoted_setting_line("home_dir", cfg.wallet_home_dir.as_str());
    push_line(&mut out, l.as_str(), Ghost(ls));
    proof { ls = ls.push(l@); }
    push_line(&mut out, "", Ghost(ls));
    proof { ls = ls.push(""@); }
    push_line(&mut out, "[framework]", Ghost(ls));
    proof { ls = ls.push("[framework]"@); }
    let l = quoted_setting_line("kind", cfg.framework.kind.as_str());
    push_line(&mut out, l.as_str(), Ghost(ls));
    proof { ls = ls.push(l@); }
    let l = quoted_setting_line("version", cfg.framework.version.as_str());
    push_line(&mut out, l.as_str(), Ghost(ls));
    proof { ls = ls.push(l@); }
    push_line(&mut out, "", Ghost(ls));
    proof { ls = ls.push(""@); }
    push_line(&mut out, "[framework.idl]", Ghost(ls));
    proof { ls = ls.push("[framework.idl]"@); }
    let l = quoted_setting_line("spec", cfg.framework.idl.spec.as_str());
    push_line(&mut out, l.as_str(), Ghost(ls));
    proof { ls = ls.push(l@); }
    let l = quoted_setting_line("path", cfg.framework.idl.path.as_str());
    push_line(&mut out, l.as_str(), Ghost(ls));
    proof { ls = ls.push(l@); }
    push_line(&mut out, "", Ghost(ls));
    proof { ls = ls.push(""@); }
    push_line(&mut out, "[localnet]", Ghost(ls));
    proof { ls = ls.push("[localnet]"@); }
    let mut l = String::from_str("port = ");
    let d = decimal_string(cfg.localnet.port as u64);
    l.append(d.as_str());
    push_line(&mut out, l.as_str(), Ghost(ls));
    proof { ls = ls.push(l@); }
    let mut l = String::from_str("risc0_dev_mode = ");
    if cfg.localnet.risc0_dev_mode {
        l.append("true");
    } else {
        l.append("false");
    }
    push_line(&mut out, l.as_str(), Ghost(ls));
    proof {
        ls = ls.push(l@);
        assert(""@ == Seq::<char>::empty()) by {
            reveal_strlit("");
        }
        assert(ls == config_lines(cfg@));
    }
    out
}


/// Whether a value is written and read back unchanged: it holds no line
/// break, backslash or double quote.
pub open spec fn plain_value(s: Seq<char>) -> bool {
    &&& lacks(s, '\n')
    &&& lacks(s, '\\')
    &&& lacks(s, '"')
}

/// Whether every string of the configuration is non-empty and plain.
pub open spec fn writable_config(c: ConfigView) -> bool {
    &&& c.version.len() > 0 && plain_value(c.version)
    &&& c.cache_root.len() > 0 && plain_value(c.cache_root)
    &&& c.lssa_url.len() > 0 && plain_value(c.lssa_url)
    &&& c.lssa_source.len() > 0 && plain_value(c.lssa_source)
    &&& c.lssa_path.len() > 0 && plain_value(c.lssa_path)
    &&& c.lssa_pin.len() > 0 && plain_value(c.lssa_pin)
    &&& c.wallet_home_dir.len() > 0 && plain_value(c.wallet_home_dir)
    &&& c.framework_kind.len() > 0 && plain_value(c.framework_kind)
    &&& c.framework_version.len() > 0 && plain_value(c.framework_version)
    &&& c.idl_spec.len() > 0 && plain_value(c.idl_spec)
    &&& c.idl_path.len() > 0 && plain_value(c.idl_path)
}

/// A value without backslashes and double quotes is written as it is.
proof fn lemma_escaped_plain(s: Seq<char>)
    requires
        lacks(s, '\\'),
        lacks(s, '"'),
    ensures
        escaped(s) == s,
    decreases s.len(),
{
    if s.len() > 0 {
        assert(lacks(s.drop_last(), '\\') && lacks(s.drop_last(), '"')) by {
            assert forall|i: int| 0 <= i < s.drop_last().len() implies s.drop_last()[i] != '\\'
                && s.drop_last()[i] != '"' by {
                assert(s.drop_last()[i] == s[i]);
            }
        }
        lemma_escaped_plain(s.drop_last());
        assert(s.last() == s[s.len() - 1]);
        assert(s.drop_last().push(s.last()) == s);
    }
}

/// Text that starts and ends with something other than whitespace is its
/// own trimmed form.
proof fn lemma_trim_unchanged(s: Seq<char>)
    requires
        s.len() > 0,
        !is_ws(s[0]),
        !is_ws(s.last()),
    ensures
        trim(s) == s,
{
    assert(trim_start(s) == s);
    assert(trim_end(s) == s);
}

/// A line `key<sep>tail` as the scan reads it, where `sep` starts with ` =`.
proof fn lemma_setting_line(st: Scan, key: Seq<char>, tail: Seq<char>, value: Seq<char>)
    requires
        key.len() > 0,
        !is_ws(key[0]),
        !is_ws(key.last()),
        key[0] != '#',
        key[0] != '[',
        lacks(key, '='),
        tail.len() > 0,
        !is_ws(tail.last()),
        unquoted(trim(tail)) == value,
    ensures
        scan_line(st, key + seq![' ', '='] + tail) == (Scan {
            section: st.section,
            settings: apply_setting(st.settings, st.section, key, value),
        }),
{
    let line = key + seq![' ', '='] + tail;
    let k = key.len() as int;
    assert(line[0] == key[0]);
    assert(line.last() == tail.last());
    lemma_trim_unchanged(line);
    assert forall|i: int| 0 <= i < k + 1 implies line[i] != '=' by {
        if i < k {
            assert(line[i] == key[i]);
        }
    }
    lemma_first_index_of(line, '=', k + 1);
    let before = line.take(k + 1);
    assert(before == key.push(' '));
    assert(trim_start(before) == before);
    assert(before.drop_last() == key);
    assert(trim_end(key) == key);
    assert(trim(before) == key);
    assert(line.skip(k + 2) == tail);
}

/// The value part ` "v"` of a quoted setting reads back as `v`.
proof fn lemma_quoted_tail(value: Seq<char>)
    requires
        lacks(value, '\\'),
        lacks(value, '"'),
    ensures
        seq![' ', '"'] + escaped(value) + seq!['"'] == seq![' '] + (seq!['"'] + value + seq!['"']),
        unquoted(trim(seq![' ', '"'] + escaped(value) + seq!['"'])) == value,
{
    lemma_escaped_plain(value);
    let tail = seq![' ', '"'] + value + seq!['"'];
    let q = seq!['"'] + value + seq!['"'];
    assert(tail.drop_first() == q);
    assert(trim_start(tail) == trim_start(q));
    assert(trim_start(q) == q);
    assert(trim_end(q) == q);
    assert(q.subrange(1, q.len() - 1) == value);
}

/// A quoted setting as the scan reads it.
proof fn lemma_quoted_line(st: Scan, key: Seq<char>, value: Seq<char>)
    requires
        key.len() > 0,
        !is_ws(key[0]),
        !is_ws(key.last()),
        key[0] != '#',
        key[0] != '[',
        lacks(key, '='),
        lacks(value, '\\'),
        lacks(value, '"'),
    ensures
        scan_line(st, quoted_setting(key, value)) == (Scan {
            section: st.section,
            settings: apply_setting(st.settings, st.section, key, value),
        }),
{
    reveal_strlit(" = \"");
    reveal_strlit("\"");
    lemma_quoted_tail(value);
    let tail = seq![' ', '"'] + escaped(value) + seq!['"'];
    assert(quoted_setting(key, value) == key + seq![' ', '='] + tail);
    lemma_setting_line(st, key, tail, value);
}

/// An unquoted setting ` = v` as the scan reads it.
proof fn lemma_bare_line(st: Scan, key: Seq<char>, value: Seq<char>)
    requires
        key.len() > 0,
        !is_ws(key[0]),
        !is_ws(key.last()),
        key[0] != '#',
        key[0] != '[',
        lacks(key, '='),
        value.len() > 0,
        !is_ws(value[0]),
        !is_ws(value.last()),
        value[0] != '"',
    ensures
        scan_line(st, key + " = "@ + value) == (Scan {
            section: st.section,
            settings: apply_setting(st.settings, st.section, key, value),
        }),
{
    reveal_strlit(" = ");
    let tail = seq![' '] + value;
    assert(key + " = "@ + value == key + seq![' ', '='] + tail);
    assert(tail.drop_first() == value);
    assert(trim_start(tail) == trim_start(value));
    lemma_trim_unchanged(value);
    assert(trim(tail) == value);
    lemma_setting_line(st, key, tail, value);
}

/// A `[name]` header as the scan reads it.
proof fn lemma_header_line(st: Scan, header: Seq<char>, name: Seq<char>)
    requires
        header == seq!['['] + name + seq![']'],
    ensures
        scan_line(st, header) == (Scan { section: name, settings: st.settings }),
{
    lemma_trim_unchanged(header);
    assert(header.subrange(1, header.len() - 1) == name);
}

/// Scanning one more line.
proof fn lemma_scan_push(ls: Seq<Seq<char>>, l: Seq<char>)
    ensures
        scan_lines(ls.push(l)) == scan_line(scan_lines(ls), l),
{
    assert(ls.push(l).drop_last() == ls);
}


/// The scan after the `[scaffold]` part of a written configuration.
pub open spec fn scan_after_scaffold(c: ConfigView) -> Scan {
    Scan { section: "scaffold"@, settings: ConfigView { version: c.version, cache_root: c.cache_root, ..initial_settings() } }
}

/// Scanning the `[scaffold]` part of a written configuration.
proof fn lemma_scan_scaffold(c: ConfigView)
    requires
        writable_config(c),
        scan_lines(config_lines(c).take(0)) == (Scan { section: Seq::<char>::empty(), settings: initial_settings() }),
    ensures
        scan_lines(config_lines(c).take(4)) == scan_after_scaffold(c),
{
    reveal_strlit("scaffold");
    reveal_strlit("repos.lssa");
    reveal_strlit("wallet");
    reveal_strlit("framework");
    reveal_strlit("framework.idl");
    reveal_strlit("localnet");
    reveal_strlit("path");
    reveal_strlit("home_dir");
    reveal_strlit("port");
    reveal_strlit("source");
    reveal_strlit("url");
    reveal_strlit("pin");
    reveal_strlit("version");
    reveal_strlit("kind");
    reveal_strlit("cache_root");
    reveal_strlit("spec");
    reveal_strlit("risc0_dev_mode");
    let ls = config_lines(c);
    let mut st = Scan { section: Seq::<char>::empty(), settings: initial_settings() };
    assert(ls.take(1) == ls.take(0).push(ls[0]));
    lemma_scan_push(ls.take(0), ls[0]);
    reveal_strlit("[scaffold]");
    assert(ls[0] =~= seq!['['] + "scaffold"@ + seq![']']);
    lemma_header_line(st, ls[0], "scaffold"@);
    st = Scan { section: "scaffold"@, settings: st.settings };
    assert(scan_lines(ls.take(1)) == st);
    assert(ls.take(2) == ls.take(1).push(ls[1]));
    lemma_scan_push(ls.take(1), ls[1]);
    lemma_quoted_line(st, "version"@, c.version);
    st = Scan { section: st.section, settings: apply_setting(st.settings, st.section, "version"@, c.version) };
    assert(scan_lines(ls.take(2)) == st);
    assert(ls.take(3) == ls.take(2).push(ls[2]));
    lemma_scan_push(ls.take(2), ls[2]);
    lemma_quoted_line(st, "cache_root"@, c.cache_root);
    st = Scan { section: st.section, settings: apply_setting(st.settings, st.section, "cache_root"@, c.cache_root) };
    assert(scan_lines(ls.take(3)) == st);
    assert(ls.take(4) == ls.take(3).push(ls[3]));
    lemma_scan_push(ls.take(3), ls[3]);
    assert(trim(ls[3]) == Seq::<char>::empty());
    assert(scan_lines(ls.take(4)) == st);
    assert(st == scan_after_scaffold(c));
}

/// The scan after the `[repos.lssa]` part of a written configuration.
pub open spec fn scan_after_repos(c: ConfigView) -> Scan {
    Scan { section: "repos.lssa"@, settings: ConfigView { lssa_url: c.lssa_url, lssa_source: c.lssa_source, lssa_path: c.lssa_path, lssa_pin: c.lssa_pin, ..scan_after_scaffold(c).settings } }
}

/// Scanning the `[repos]` part of a written configuration.
proof fn lemma_scan_repos(c: ConfigView)
    requires
        writable_config(c),
        scan_lines(config_lines(c).take(4)) == scan_after_scaffold(c),
    ensures
        scan_lines(config_lines(c).take(10)) == scan_after_repos(c),
{
    reveal_strlit("scaffold");
    reveal_strlit("repos.lssa");
    reveal_strlit("wallet");
    reveal_strlit("framework");
    reveal_strlit("framework.idl");
    reveal_strlit("localnet");
    reveal_strlit("path");
    reveal_strlit("home_dir");
    reveal_strlit("port");
    reveal_strlit("source");
    reveal_strlit("url");
    reveal_strlit("pin");
    reveal_strlit("version");
    reveal_strlit("kind");
    reveal_strlit("cache_root");
    reveal_strlit("spec");
    reveal_strlit("risc0_dev_mode");
    let ls = config_lines(c);
    let mut st = scan_after_scaffold(c);
    assert(ls.take(5) == ls.take(4).push(ls[4]));
    lemma_scan_push(ls.take(4), ls[4]);
    reveal_strlit("[repos.lssa]");
    assert(ls[4] =~= seq!['['] + "repos.lssa"@ + seq![']']);
    lemma_header_line(st, ls[4], "repos.lssa"@);
    st = Scan { section: "repos.lssa"@, settings: st.settings };
    assert(scan_lines(ls.take(5)) == st);
    assert(ls.take(6) == ls.take(5).push(ls[5]));
    lemma_scan_push(ls.take(5), ls[5]);
    lemma_quoted_line(st, "url"@, c.lssa_url);
    st = Scan { section: st.section, settings: apply_setting(st.settings, st.section, "url"@, c.lssa_url) };
    assert(scan_lines(ls.take(6)) == st);
    assert(ls.take(7) == ls.take(6).push(ls[6]));
    lemma_scan_push(ls.take(6), ls[6]);
    lemma_quoted_line(st, "source"@, c.lssa_source);
    st = Scan { section: st.section, settings: apply_setting(st.settings, st.section, "source"@, c.lssa_source) };
    assert(scan_lines(ls.take(7)) == st);
    assert(ls.take(8) == ls.take(7).push(ls[7]));
    lemma_scan_push(ls.take(7), ls[7]);
    lemma_quoted_line(st, "path"@, c.lssa_path);
    st = Scan { section: st.section, settings: apply_setting(st.settings, st.section, "path"@, c.lssa_path) };
    assert(scan_lines(ls.take(8)) == st);
    assert(ls.take(9) == ls.take(8).push(ls[8]));
    lemma_scan_push(ls.take(8), ls[8]);
    lemma_quoted_line(st, "pin"@, c.lssa_pin);
    st = Scan { section: st.section, settings: apply_setting(st.settings, st.section, "pin"@, c.lssa_pin) };
    assert(scan_lines(ls.take(9)) == st);
    assert(ls.take(10) == ls.take(9).push(ls[9]));
    lemma_scan_push(ls.take(9), ls[9]);
    assert(trim(ls[9]) == Seq::<char>::empty());
    assert(scan_lines(ls.take(10)) == st);
    assert(st == scan_after_repos(c));
}

/// The scan after the `[wallet]` part of a written configuration.
pub open spec fn scan_after_wallet(c: ConfigView) -> Scan {
    Scan { section: "wallet"@, settings: ConfigView { wallet_home_dir: c.wallet_home_dir, ..scan_after_repos(c).settings } }
}

/// Scanning the `[wallet]` part of a written configuration.
proof fn lemma_scan_wallet(c: ConfigView)
    requires
        writable_config(c),
        scan_lines(config_lines(c).take(10)) == scan_after_repos(c),
    ensures
        scan_lines(config_lines(c).take(13)) == scan_after_wallet(c),
{
    reveal_strlit("scaffold");
    reveal_strlit("repos.lssa");
    reveal_strlit("wallet");
    reveal_strlit("framework");
    reveal_strlit("framework.idl");
    reveal_strlit("localnet");
    reveal_strlit("path");
    reveal_strlit("home_dir");
    reveal_strlit("port");
    reveal_strlit("source");
    reveal_strlit("url");
    reveal_strlit("pin");
    reveal_strlit("version");
    reveal_strlit("kind");
    reveal_strlit("cache_root");
    reveal_strlit("spec");
    reveal_strlit("risc0_dev_mode");
    let ls = config_lines(c);
    let mut st = scan_after_repos(c);
    assert(ls.take(11) == ls.take(10).push(ls[10]));
    lemma_scan_push(ls.take(10), ls[10]);
    reveal_strlit("[wallet]");
    assert(ls[10] =~= seq!['['] + "wallet"@ + seq![']']);
    lemma_header_line(st, ls[10], "wallet"@);
    st = Scan { section: "wallet"@, settings: st.settings };
    assert(scan_lines(ls.take(11)) == st);
    assert(ls.take(12) == ls.take(11).push(ls[11]));
    lemma_scan_push(ls.take(11), ls[11]);
    lemma_quoted_line(st, "home_dir"@, c.wallet_home_dir);
    st = Scan { section: st.section, settings: apply_setting(st.settings, st.section, "home_dir"@, c.wallet_home_dir) };
    assert(scan_lines(ls.take(12)) == st);
    assert(ls.take(13) == ls.take(12).push(ls[12]));
    lemma_scan_push(ls.take(12), ls[12]);
    assert(trim(ls[12]) == Seq::<char>::empty());
    assert(scan_lines(ls.take(13)) == st);
    assert(st == scan_after_wallet(c));
}

/// The scan after the `[framework]` part of a written configuration.
pub open spec fn scan_after_framework(c: ConfigView) -> Scan {
    Scan { section: "framework"@, settings: ConfigView { framework_kind: c.framework_kind, framework_version: c.framework_version, ..scan_after_wallet(c).settings } }
}

/// Scanning the `[framework]` part of a written configuration.
proof fn lemma_scan_framework(c: ConfigView)
    requires
        writable_config(c),
        scan_lines(config_lines(c).take(13)) == scan_after_wallet(c),
    ensures
        scan_lines(config_lines(c).take(17)) == scan_after_framework(c),
{
    reveal_strlit("scaffold");
    reveal_strlit("repos.lssa");
    reveal_strlit("wallet");
    reveal_strlit("framework");
    reveal_strlit("framework.idl");
    reveal_strlit("localnet");
    reveal_strlit("path");
    reveal_strlit("home_dir");
    reveal_strlit("port");
    reveal_strlit("source");
    reveal_strlit("url");
    reveal_strlit("pin");
    reveal_strlit("version");
    reveal_strlit("kind");
    reveal_strlit("cache_root");
    reveal_strlit("spec");
    reveal_strlit("risc0_dev_mode");
    let ls = config_lines(c);
    let mut st = scan_after_wallet(c);
    assert(ls.take(14) == ls.take(13).push(ls[13]));
    lemma_scan_push(ls.take(13), ls[13]);
    reveal_strlit("[framework]");
    assert(ls[13] =~= seq!['['] + "framework"@ + seq![']']);
    lemma_header_line(st, ls[13], "framework"@);
    st = Scan { section: "framework"@, settings: st.settings };
    assert(scan_lines(ls.take(14)) == st);
    assert(ls.take(15) == ls.take(14).push(ls[14]));
    lemma_scan_push(ls.take(14), ls[14]);
    lemma_quoted_line(st, "kind"@, c.framework_kind);
    st = Scan { section: st.section, settings: apply_setting(st.settings, st.section, "kind"@, c.framework_kind) };
    assert(scan_lines(ls.take(15)) == st);
    assert(ls.take(16) == ls.take(15).push(ls[15]));
    lemma_scan_push(ls.take(15), ls[15]);
    lemma_quoted_line(st, "version"@, c.framework_version);
    st = Scan { section: st.section, settings: apply_setting(st.settings, st.section, "version"@, c.framework_version) };
    assert(scan_lines(ls.take(16)) == st);
    assert(ls.take(17) == ls.take(16).push(ls[16]));
    lemma_scan_push(ls.take(16), ls[16]);
    assert(trim(ls[16]) == Seq::<char>::empty());
    assert(scan_lines(ls.take(17)) == st);
    assert(st == scan_after_framework(c));
}

/// The scan after the `[framework.idl]` part of a written configuration.
pub open spec fn scan_after_idl(c: ConfigView) -> Scan {
    Scan { section: "framework.idl"@, settings: ConfigView { idl_spec: c.idl_spec, idl_path: c.idl_path, ..scan_after_framework(c).settings } }
}

/// Scanning the `[idl]` part of a written configuration.
proof fn lemma_scan_idl(c: ConfigView)
    requires
        writable_config(c),
        scan_lines(config_lines(c).take(17)) == scan_after_framework(c),
    ensures
        scan_lines(config_lines(c).take(21)) == scan_after_idl(c),
{
    reveal_strlit("scaffold");
    reveal_strlit("repos.lssa");
    reveal_strlit("wallet");
    reveal_strlit("framework");
    reveal_strlit("framework.idl");
    reveal_strlit("localnet");
    reveal_strlit("path");
    reveal_strlit("home_dir");
    reveal_strlit("port");
    reveal_strlit("source");
    reveal_strlit("url");
    reveal_strlit("pin");
    reveal_strlit("version");
    reveal_strlit("kind");
    reveal_strlit("cache_root");
    reveal_strlit("spec");
    reveal_strlit("risc0_dev_mode");
    let ls = config_lines(c);
    let mut st = scan_after_framework(c);
    assert(ls.take(18) == ls.take(17).push(ls[17]));
    lemma_scan_push(ls.take(17), ls[17]);
    reveal_strlit("[framework.idl]");
    assert(ls[17] =~= seq!['['] + "framework.idl"@ + seq![']']);
    lemma_header_line(st, ls[17], "framework.idl"@);
    st = Scan { section: "framework.idl"@, settings: st.settings };
    assert(scan_lines(ls.take(18)) == st);
    assert(ls.take(19) == ls.take(18).push(ls[18]));
    lemma_scan_push(ls.take(18), ls[18]);
    lemma_quoted_line(st, "spec"@, c.idl_spec);
    st = Scan { section: st.section, settings: apply_setting(st.settings, st.section, "spec"@, c.idl_spec) };
    assert(scan_lines(ls.take(19)) == st);
    assert(ls.take(20) == ls.take(19).push(ls[19]));
    lemma_scan_push(ls.take(19), ls[19]);
    lemma_quoted_line(st, "path"@, c.idl_path);
    st = Scan { section: st.section, settings: apply_setting(st.settings, st.section, "path"@, c.idl_path) };
    assert(scan_lines(ls.take(20)) == st);
    assert(ls.take(21) == ls.take(20).push(ls[20]));
    lemma_scan_push(ls.take(20), ls[20]);
    assert(trim(ls[20]) == Seq::<char>::empty());
    assert(scan_lines(ls.take(21)) == st);
    assert(st == scan_after_idl(c));
}

/// The scan after the `[localnet]` part of a written configuration.
pub open spec fn scan_after_localnet(c: ConfigView) -> Scan {
    Scan { section: "localnet"@, settings: c }
}

/// Scanning the `[localnet]` part of a written configuration.
proof fn lemma_scan_localnet(c: ConfigView)
    requires
        writable_config(c),
        scan_lines(config_lines(c).take(21)) == scan_after_idl(c),
    ensures
        scan_lines(config_lines(c).take(24)) == scan_after_localnet(c),
{
    reveal_strlit("scaffold");
    reveal_strlit("repos.lssa");
    reveal_strlit("wallet");
    reveal_strlit("framework");
    reveal_strlit("framework.idl");
    reveal_strlit("localnet");
    reveal_strlit("path");
    reveal_strlit("home_dir");
    reveal_strlit("port");
    reveal_strlit("source");
    reveal_strlit("url");
    reveal_strlit("pin");
    reveal_strlit("version");
    reveal_strlit("kind");
    reveal_strlit("cache_root");
    reveal_strlit("spec");
    reveal_strlit("risc0_dev_mode");
    assert("localnet"@ != "scaffold"@) by {
        assert("localnet"@[0] != "scaffold"@[0]);
    }
    let ls = config_lines(c);
    let mut st = scan_after_idl(c);
    assert(ls.take(22) == ls.take(21).push(ls[21]));
    lemma_scan_push(ls.take(21), ls[21]);
    reveal_strlit("[localnet]");
    assert(ls[21] =~= seq!['['] + "localnet"@ + seq![']']);
    lemma_header_line(st, ls[21], "localnet"@);
    st = Scan { section: "localnet"@, settings: st.settings };
    assert(scan_lines(ls.take(22)) == st);
    assert(ls.take(23) == ls.take(22).push(ls[22]));
    lemma_scan_push(ls.take(22), ls[22]);
    reveal_strlit("port = ");
    reveal_strlit(" = ");
    lemma_decimal_digits(c.port as nat);
    lemma_parse_decimal(c.port);
    let d = decimal(c.port as nat);
    assert(is_digit(d[0]) && is_digit(d.last()));
    assert(ls[22] == "port"@ + " = "@ + d);
    lemma_bare_line(st, "port"@, d);
    st = Scan { section: st.section, settings: apply_setting(st.settings, st.section, "port"@, d) };
    assert(scan_lines(ls.take(23)) == st);
    assert(ls.take(24) == ls.take(23).push(ls[23]));
    lemma_scan_push(ls.take(23), ls[23]);
    reveal_strlit("risc0_dev_mode = ");
    reveal_strlit("true");
    reveal_strlit("false");
    reveal_strlit("0");
    let b = bool_text(c.risc0_dev_mode);
    assert(ls[23] == "risc0_dev_mode"@ + " = "@ + b);
    lemma_bare_line(st, "risc0_dev_mode"@, b);
    st = Scan { section: st.section, settings: apply_setting(st.settings, st.section, "risc0_dev_mode"@, b) };
    assert(scan_lines(ls.take(24)) == st);
    assert(parse_u16(d) == Some(c.port));
    assert(b != "false"@ && b != "0"@ <==> c.risc0_dev_mode);
    assert(st.settings.port == c.port);
    assert(st.settings.risc0_dev_mode == c.risc0_dev_mode);
    assert(st.settings == c);
    assert(st == scan_after_localnet(c));
}
/// A configuration that `serialize_config` wrote is read back by
/// `parse_config` as it was, when its strings are non-empty and hold no line
/// break, backslash or double quote.
pub proof fn lemma_config_roundtrip(c: ConfigView)
    requires
        writable_config(c),
    ensures
        parsed_config(serialized_config(c)) == Ok::<ConfigView, ConfigError>(c),
{
    lemma_lines_of_config(c);
    let ls = config_lines(c);
    assert(ls.take(0) == Seq::<Seq<char>>::empty());
    lemma_scan_scaffold(c);
    lemma_scan_repos(c);
    lemma_scan_wallet(c);
    lemma_scan_framework(c);
    lemma_scan_idl(c);
    lemma_scan_localnet(c);
    assert(ls.take(24) == ls);
}


/// Text without `c` joined to text without `c` holds no `c`.
proof fn lemma_lacks_concat(a: Seq<char>, b: Seq<char>, c: char)
    requires
        lacks(a, c),
        lacks(b, c),
    ensures
        lacks(a + b, c),
{
    assert forall|i: int| 0 <= i < (a + b).len() implies (a + b)[i] != c by {
        if i < a.len() {
            assert((a + b)[i] == a[i]);
        } else {
            assert((a + b)[i] == b[i - a.len()]);
        }
    }
}

/// A written quoted setting is one line, ended by a double quote.
proof fn lemma_quoted_line_clean(key: Seq<char>, value: Seq<char>)
    requires
        lacks(key, '\n'),
        plain_value(value),
    ensures
        lacks(quoted_setting(key, value), '\n'),
        quoted_setting(key, value).last() == '"',
        strip_cr(quoted_setting(key, value)) == quoted_setting(key, value),
{
    reveal_strlit(" = \"");
    reveal_strlit("\"");
    lemma_escaped_plain(value);
    assert(lacks(" = \""@, '\n'));
    assert(lacks("\""@, '\n'));
    lemma_lacks_concat(key, " = \""@, '\n');
    lemma_lacks_concat(key + " = \""@, value, '\n');
    lemma_lacks_concat(key + " = \""@ + value, "\""@, '\n');
}

/// The written text splits back into the written lines.
proof fn lemma_lines_of_config(c: ConfigView)
    requires
        writable_config(c),
    ensures
        lines(serialized_config(c)) == config_lines(c),
{
    reveal_strlit("version");
    reveal_strlit("cache_root");
    reveal_strlit("url");
    reveal_strlit("source");
    reveal_strlit("path");
    reveal_strlit("pin");
    reveal_strlit("home_dir");
    reveal_strlit("kind");
    reveal_strlit("spec");
    reveal_strlit("[scaffold]");
    reveal_strlit("[repos.lssa]");
    reveal_strlit("[wallet]");
    reveal_strlit("[framework]");
    reveal_strlit("[framework.idl]");
    reveal_strlit("[localnet]");
    reveal_strlit("port = ");
    reveal_strlit("risc0_dev_mode = ");
    reveal_strlit("true");
    reveal_strlit("false");
    lemma_quoted_line_clean("version"@, c.version);
    lemma_quoted_line_clean("cache_root"@, c.cache_root);
    lemma_quoted_line_clean("url"@, c.lssa_url);
    lemma_quoted_line_clean("source"@, c.lssa_source);
    lemma_quoted_line_clean("path"@, c.lssa_path);
    lemma_quoted_line_clean("pin"@, c.lssa_pin);
    lemma_quoted_line_clean("home_dir"@, c.wallet_home_dir);
    lemma_quoted_line_clean("kind"@, c.framework_kind);
    lemma_quoted_line_clean("version"@, c.framework_version);
    lemma_quoted_line_clean("spec"@, c.idl_spec);
    lemma_quoted_line_clean("path"@, c.idl_path);
    lemma_decimal_digits(c.port as nat);
    let d = decimal(c.port as nat);
    assert(lacks(d, '\n')) by { assert forall|i: int| 0 <= i < d.len() implies d[i] != '\n' by { assert(is_digit(d[i])); } }
    lemma_lacks_concat("port = "@, d, '\n');
    lemma_lacks_concat("risc0_dev_mode = "@, bool_text(c.risc0_dev_mode), '\n');
    let ls = config_lines(c);
    assert(("port = "@ + d).last() == d.last());
    assert(is_digit(d.last()));
    assert forall|k: int| 0 <= k < ls.len() implies lacks(#[trigger] ls[k], '\n') && strip_cr(ls[k]) == ls[k] by {
        if k == 0 || k == 4 || k == 10 || k == 13 || k == 17 || k == 21 {
            assert(ls[k].len() > 0 && ls[k].last() == ']');
        }
    }
    lemma_lines_of_join(ls);
}

/// Whether `key` is one that some section of the format reads.
pub open spec fn known_key(key: Seq<char>) -> bool {
    ||| key == "version"@
    ||| key == "cache_root"@
    ||| key == "url"@
    ||| key == "source"@
    ||| key == "path"@
    ||| key == "pin"@
    ||| key == "home_dir"@
    ||| key == "kind"@
    ||| key == "spec"@
    ||| key == "port"@
    ||| key == "risc0_dev_mode"@
}

/// Whether a line means nothing to the parser: blank, a `#` comment, or a
/// setting (not a `[name]` header) whose key no section reads.
pub open spec fn ignorable_line(l: Seq<char>) -> bool {
    let t = trim(l);
    ||| t.len() == 0
    ||| t[0] == '#'
    ||| (!(t[0] == '[' && t.last() == ']') && !known_key(line_key(t)))
}

/// A key that no section reads changes no setting.
proof fn lemma_unknown_key(c: ConfigView, section: Seq<char>, key: Seq<char>, value: Seq<char>)
    requires
        !known_key(key),
    ensures
        apply_setting(c, section, key, value) == c,
{
}

/// An ignorable line leaves the scan as it was.
proof fn lemma_scan_ignorable(st: Scan, l: Seq<char>)
    requires
        ignorable_line(l),
    ensures
        scan_line(st, l) == st,
{
    let t = trim(l);
    if !(t.len() == 0 || t[0] == '#') {
        lemma_unknown_key(st.settings, st.section, line_key(t), line_value(t));
    }
}

/// Inserting an ignorable line anywhere into a list of lines leaves the scan
/// as it was.
proof fn lemma_scan_insert_ignorable(ls: Seq<Seq<char>>, k: int, l: Seq<char>)
    requires
        0 <= k <= ls.len(),
        ignorable_line(l),
    ensures
        scan_lines(ls.insert(k, l)) == scan_lines(ls),
    decreases ls.len(),
{
    if k == ls.len() {
        assert(ls.insert(k, l) == ls.push(l));
        lemma_scan_push(ls, l);
        lemma_scan_ignorable(scan_lines(ls), l);
    } else {
        let m = ls.insert(k, l);
        assert(m.drop_last() == ls.drop_last().insert(k, l));
        assert(m.last() == ls.last());
        lemma_scan_insert_ignorable(ls.drop_last(), k, l);
    }
}

/// A line break ends the line that stands before it, so the lines of
/// `a + l + "\n" + b` are those of `a + b` with `l` between them.
proof fn lemma_lines_with_inserted(a: Seq<char>, l: Seq<char>, b: Seq<char>)
    requires
        a.len() == 0 || a.last() == '\n',
        lacks(l, '\n'),
    ensures
        lines(a + l + seq!['\n'] + b) == (lines(a) + lines(b)).insert(
            lines(a).len() as int,
            strip_cr(l),
        ),
{
    let ln = l + seq!['\n'];
    assert(a + l + seq!['\n'] + b == a + (ln + b));
    lemma_lines_concat(a, ln + b);
    lemma_lines_concat(ln, b);
    lemma_lines_one(l);
    lemma_lines_concat(a, b);
    assert(lines(a) + (seq![strip_cr(l)] + lines(b)) =~= (lines(a) + lines(b)).insert(
        lines(a).len() as int,
        strip_cr(l),
    ));
}

/// Blank lines, `#` comments and settings whose key no section reads can be
/// added to a configuration anywhere between its lines without changing what
/// it means: the same configuration, or the same error.
pub proof fn lemma_ignorable_line_inserted(a: Seq<char>, l: Seq<char>, b: Seq<char>)
    requires
        a.len() == 0 || a.last() == '\n',
        lacks(l, '\n'),
        ignorable_line(l),
    ensures
        parsed_config(a + l + seq!['\n'] + b) == parsed_config(a + b),
{
    lemma_lines_with_inserted(a, l, b);
    lemma_lines_concat(a, b);
    lemma_trim_strip_cr(l);
    assert(ignorable_line(strip_cr(l)));
    lemma_scan_insert_ignorable(lines(a) + lines(b), lines(a).len() as int, strip_cr(l));
}

/// An ignorable last line, with or without its line break, changes nothing
/// either.
pub proof fn lemma_ignorable_line_appended(a: Seq<char>, l: Seq<char>)
    requires
        a.len() == 0 || a.last() == '\n',
        lacks(l, '\n'),
        ignorable_line(l),
    ensures
        parsed_config(a + l) == parsed_config(a),
{
    lemma_lines_concat(a, l);
    lemma_split_on_extend(Seq::<char>::empty(), l, '\n');
    assert(Seq::<char>::empty() + l == l);
    assert(split_on(Seq::<char>::empty(), '\n') == seq![Seq::<char>::empty()]);
    assert(split_on(l, '\n') =~= seq![l]);
    if l.len() == 0 {
        assert(lines(l) =~= Seq::<Seq<char>>::empty());
        assert(lines(a) + lines(l) =~= lines(a));
    } else {
        assert(lines(l) =~= seq![l]);
        assert(lines(a) + lines(l) =~= lines(a).push(l));
        lemma_scan_push(lines(a), l);
        lemma_scan_ignorable(scan_lines(lines(a)), l);
    }
}

/// A line break added at the end of a configuration changes nothing.
pub proof fn lemma_final_line_break(t: Seq<char>)
    ensures
        parsed_config(t + seq!['\n']) == parsed_config(t),
{
    let p = split_on(t, '\n');
    let e = Seq::<char>::empty();
    lemma_split_on_nonempty(t, '\n');
    assert((t + seq!['\n']).drop_last() == t);
    assert(split_on(t + seq!['\n'], '\n') == p.push(e));
    let body = p.drop_last().map_values(|q: Seq<char>| strip_cr(q));
    assert(p.push(e).drop_last() == p);
    assert(p.map_values(|q: Seq<char>| strip_cr(q)) =~= body.push(strip_cr(p.last())));
    assert(lines(t + seq!['\n']) == body.push(strip_cr(p.last())));
    lemma_scan_push(body, strip_cr(p.last()));
    if p.last().len() == 0 {
        assert(lines(t) == body);
        assert(strip_cr(p.last()) == e);
        assert(trim_start(e) == e);
        assert(trim_end(e) == e);
        lemma_scan_ignorable(scan_lines(body), e);
    } else {
        assert(lines(t) == body.push(p.last()));
        lemma_scan_push(body, p.last());
        lemma_trim_strip_cr(p.last());
    }
}

/// An ignorable line added after the last line of a configuration changes
/// nothing, whether or not the text ended with a line break.
pub proof fn lemma_ignorable_line_after(t: Seq<char>, l: Seq<char>)
    requires
        lacks(l, '\n'),
        ignorable_line(l),
    ensures
        parsed_config(t + seq!['\n'] + l) == parsed_config(t),
{
    lemma_final_line_break(t);
    lemma_ignorable_line_appended(t + seq!['\n'], l);
}

/// The lines that mean something to the parser: all but the ignorable ones.
pub open spec fn meaningful_lines(ls: Seq<Seq<char>>) -> Seq<Seq<char>> {
    ls.filter(|l: Seq<char>| !ignorable_line(l))
}

/// Leaving out every ignorable line leaves the scan as it was.
proof fn lemma_scan_meaningful(ls: Seq<Seq<char>>)
    ensures
        scan_lines(ls) == scan_lines(meaningful_lines(ls)),
    decreases ls.len(),
{
    reveal(Seq::filter);
    if ls.len() > 0 {
        let pred = |l: Seq<char>| !ignorable_line(l);
        let f = ls.drop_last().filter(pred);
        lemma_scan_meaningful(ls.drop_last());
        assert(scan_lines(ls) == scan_line(scan_lines(ls.drop_last()), ls.last()));
        if ignorable_line(ls.last()) {
            assert(meaningful_lines(ls) == f);
            lemma_scan_ignorable(scan_lines(ls.drop_last()), ls.last());
        } else {
            assert(meaningful_lines(ls) == f.push(ls.last()));
            lemma_scan_push(f, ls.last());
        }
    }
}

/// Two configuration texts whose lines are the same once blank lines,
/// `#` comments and settings whose key no section reads are left out mean
/// the same: the same configuration, or the same error. So any number of
/// such lines can be inserted anywhere, or removed, without changing what a
/// configuration means.
pub proof fn lemma_ignorable_lines_change_nothing(t1: Seq<char>, t2: Seq<char>)
    requires
        meaningful_lines(lines(t1)) == meaningful_lines(lines(t2)),
    ensures
        parsed_config(t1) == parsed_config(t2),
{
    lemma_scan_meaningful(lines(t1));
    lemma_scan_meaningful(lines(t2));
}

/// Inserting an ignorable line into a list of lines leaves out nothing that
/// means something: the meaningful lines stay as they were.
pub proof fn lemma_meaningful_insert(ls: Seq<Seq<char>>, k: int, l: Seq<char>)
    requires
        0 <= k <= ls.len(),
        ignorable_line(l),
    ensures
        meaningful_lines(ls.insert(k, l)) == meaningful_lines(ls),
    decreases ls.len(),
{
    reveal(Seq::filter);
    if k == ls.len() {
        assert(ls.insert(k, l) == ls.push(l));
        assert(ls.push(l).drop_last() == ls);
    } else {
        let m = ls.insert(k, l);
        assert(m.drop_last() == ls.drop_last().insert(k, l));
        assert(m.last() == ls.last());
        lemma_meaningful_insert(ls.drop_last(), k, l);
    }
}

/// A configuration is accepted only with every required key set, and then
/// holds what the text set: `[scaffold]` needs `version` and `cache_root`,
/// `[repos.lssa]` needs `source`, `path` and `pin`. Where `[scaffold]` has
/// both but one of the three repository keys is missing or empty, the text
/// is refused with `MissingRepoKeys`; where `[scaffold]` lacks one, with
/// `MissingScaffoldKeys`.
pub proof fn lemma_config_required_keys(t: Seq<char>)
    ensures
        parsed_config(t) matches Ok(c) ==> {
            &&& c.version.len() > 0
            &&& c.cache_root.len() > 0
            &&& c.lssa_source.len() > 0
            &&& c.lssa_path.len() > 0
            &&& c.lssa_pin.len() > 0
            &&& c.version == scan_lines(lines(t)).settings.version
            &&& c.cache_root == scan_lines(lines(t)).settings.cache_root
            &&& c.lssa_source == scan_lines(lines(t)).settings.lssa_source
            &&& c.lssa_path == scan_lines(lines(t)).settings.lssa_path
            &&& c.lssa_pin == scan_lines(lines(t)).settings.lssa_pin
            &&& c.port == scan_lines(lines(t)).settings.port
        },
        (scan_lines(lines(t)).settings.version.len() == 0
            || scan_lines(lines(t)).settings.cache_root.len() == 0) ==> parsed_config(t) == Err::<
            ConfigView,
            ConfigError,
        >(ConfigError::MissingScaffoldKeys),
        (scan_lines(lines(t)).settings.version.len() > 0
            && scan_lines(lines(t)).settings.cache_root.len() > 0 && (
        scan_lines(lines(t)).settings.lssa_source.len() == 0
            || scan_lines(lines(t)).settings.lssa_path.len() == 0
            || scan_lines(lines(t)).settings.lssa_pin.len() == 0)) ==> parsed_config(t) == Err::<
            ConfigView,
            ConfigError,
        >(ConfigError::MissingRepoKeys),
{
}

} // verus!
