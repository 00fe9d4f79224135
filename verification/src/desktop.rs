//! The desktop app's own state: its log, its settings and how they are
//! written to and read from a `.env` file, and which dropped files it takes.
use vstd::prelude::*;
use crate::text::{str_chars, string_of, append_chars, chars_eq, trim, trim_vec, parse_u16, parse_u16_exec, is_ascii_digit};
use crate::library::opt_view;

verus! {

// ---------------------------------------------------------------------------
// The log
// ---------------------------------------------------------------------------

/// One log line with the local time it was written at.
pub struct LogEntry {
    pub timestamp: String,
    pub message: String,
}

/// The most recent log lines, at most `max_entries` of them.
pub struct LogBuffer {
    pub entries: Vec<LogEntry>,
    pub max_entries: usize,
}

pub struct LogEntryView {
    pub timestamp: Seq<char>,
    pub message: Seq<char>,
}

impl View for LogEntry {
    type V = LogEntryView;

    open spec fn view(&self) -> LogEntryView {
        LogEntryView { timestamp: self.timestamp@, message: self.message@ }
    }
}

impl View for LogBuffer {
    type V = Seq<LogEntryView>;

    open spec fn view(&self) -> Seq<LogEntryView> {
        self.entries@.map_values(|e: LogEntry| e@)
    }
}

/// The lines after adding one: appended, and the oldest dropped when that
/// makes one too many.
pub open spec fn pushed(entries: Seq<LogEntryView>, max: usize, e: LogEntryView) -> Seq<LogEntryView> {
    if entries.len() + 1 > max {
        entries.push(e).drop_first()
    } else {
        entries.push(e)
    }
}

/// Whether `t` has the shape of `HH:MM:SS`.
pub open spec fn is_clock_text(t: Seq<char>) -> bool {
    &&& t.len() == 8
    &&& t[2] == ':' && t[5] == ':'
    &&& forall|k: int| 0 <= k < 8 && k != 2 && k != 5 ==> is_ascii_digit(#[trigger] t[k])
}

/// The local time of day as `HH:MM:SS` (chrono's `Local::now()` formatted
/// with `%H:%M:%S`). Claimed: the documented shape, two zero-padded digits
/// for each of hour, minute and second; which time it shows is not stated.
#[verifier::external_body]
fn local_clock_text() -> (r: String)
    ensures
        is_clock_text(r@),
{
    chrono::Local::now().format("%H:%M:%S").to_string()
}

impl LogBuffer {
    pub fn new(max: usize) -> (r: LogBuffer)
        ensures
            r@ == Seq::<LogEntryView>::empty(),
            r.max_entries == max,
    {
        let r = LogBuffer { entries: Vec::new(), max_entries: max };
        assert(r@ =~= Seq::<LogEntryView>::empty());
        r
    }

    /// Adds a line written at `timestamp`, dropping the oldest line when
    /// there are then more than `max_entries`.
    pub fn push_at(&mut self, message: String, timestamp: String)
        ensures
            final(self).max_entries == old(self).max_entries,
            final(self)@ == pushed(old(self)@, old(self).max_entries, LogEntryView { timestamp: timestamp@, message: message@ }),
    {
        let ghost before = self@;
        let e = LogEntry { timestamp, message };
        let ghost ev = e@;
        let ghost raw = self.entries@;
        self.entries.push(e);
        assert(self@ =~= before.push(ev)) by {
            assert(self.entries@ == raw.push(e));
        }
        if self.entries.len() > self.max_entries {
            let ghost full = self.entries@;
            let _oldest = self.entries.remove(0);
            assert(self@ =~= before.push(ev).drop_first()) by {
                assert forall|k: int| 0 <= k < self@.len() implies #[trigger] self@[k] == before.push(ev).drop_first()[k] by {
                    assert(self.entries@[k] == full[k + 1]);
                }
            }
        }
    }

    /// Adds a line stamped with the local time.
    pub fn push(&mut self, message: String)
        ensures
            final(self).max_entries == old(self).max_entries,
            exists|t: Seq<char>| is_clock_text(t) && final(self)@ == pushed(old(self)@, old(self).max_entries, LogEntryView { timestamp: t, message: message@ }),
    {
        let t = local_clock_text();
        let ghost tv = t@;
        self.push_at(message, t);
        assert(is_clock_text(tv));
    }
}

/// A log never holds more lines than it keeps, and the line just added is
/// its last one (unless it keeps none).
pub proof fn lemma_log_bounded(entries: Seq<LogEntryView>, max: usize, e: LogEntryView)
    requires
        entries.len() <= max,
    ensures
        pushed(entries, max, e).len() <= max,
        max > 0 ==> pushed(entries, max, e).last() == e,
        max > 0 ==> pushed(entries, max, e).len() == if entries.len() < max { (entries.len() + 1) as int } else { max as int },
{
}

// ---------------------------------------------------------------------------
// Settings
// ---------------------------------------------------------------------------

/// The desktop app's settings.
pub struct AppConfig {
    pub media_path: String,
    pub tmdb_key: String,
    pub server_name: String,
    pub port: u16,
    /// Encoder override for transcoding. "auto" (probes and picks the best HW encoder)
    /// or one of: nvenc, qsv, amf, videotoolbox, software/libx264.
    pub encoder: String,
}

pub open spec fn word_auto() -> Seq<char> {
    seq!['a', 'u', 't', 'o']
}

pub open spec fn default_server_name() -> Seq<char> {
    seq!['C', 'a', 's', 't', ' ', 'S', 'e', 'r', 'v', 'e', 'r']
}

pub open spec fn default_port() -> u16 {
    3456
}

/// The encoder used when none is set: `auto`.
pub fn default_encoder() -> (r: String)
    ensures
        r@ == word_auto(),
{
    let v = vec!['a', 'u', 't', 'o'];
    string_of(&v)
}

fn default_server_name_exec() -> (r: String)
    ensures
        r@ == default_server_name(),
{
    let v = vec!['C', 'a', 's', 't', ' ', 'S', 'e', 'r', 'v', 'e', 'r'];
    string_of(&v)
}

impl Default for AppConfig {
    fn default() -> (r: AppConfig)
        ensures
            r.media_path@ == Seq::<char>::empty(),
            r.tmdb_key@ == Seq::<char>::empty(),
            r.server_name@ == default_server_name(),
            r.port == default_port(),
            r.encoder@ == word_auto(),
    {
        AppConfig {
            media_path: String::new(),
            tmdb_key: String::new(),
            server_name: default_server_name_exec(),
            port: 3456,
            encoder: default_encoder(),
        }
    }
}

/// The settings from the values of `CAST_MEDIA_PATH`, `TMDB_API_KEY`,
/// `CAST_SERVER_NAME`, `CAST_PORT` and `CAST_ENCODER` (each where set):
/// unset paths and keys are empty, the name defaults to `Cast Server`, a
/// port that is unset or not a `u16` to 3456, the encoder to `auto`.
pub fn config_from_env(
    media_path: Option<String>,
    tmdb_key: Option<String>,
    server_name: Option<String>,
    port: Option<String>,
    encoder: Option<String>,
) -> (r: AppConfig)
    ensures
        r.media_path@ == match media_path {
            Some(v) => v@,
            None => Seq::<char>::empty(),
        },
        r.tmdb_key@ == match tmdb_key {
            Some(v) => v@,
            None => Seq::<char>::empty(),
        },
        r.server_name@ == match server_name {
            Some(v) => v@,
            None => default_server_name(),
        },
        r.port == match port {
            Some(p) => match parse_u16(p@) {
                Some(n) => n,
                None => default_port(),
            },
            None => default_port(),
        },
        r.encoder@ == match encoder {
            Some(v) => v@,
            None => word_auto(),
        },
{
    let port = match port {
        Some(p) => {
            let v = str_chars(p.as_str());
            assert(v@.subrange(0, v@.len() as int) =~= v@);
            match parse_u16_exec(&v, 0, v.len()) {
                Some(n) => n,
                None => 3456,
            }
        },
        None => 3456,
    };
    AppConfig {
        media_path: match media_path {
            Some(v) => v,
            None => String::new(),
        },
        tmdb_key: match tmdb_key {
            Some(v) => v,
            None => String::new(),
        },
        server_name: match server_name {
            Some(v) => v,
            None => default_server_name_exec(),
        },
        port,
        encoder: match encoder {
            Some(v) => v,
            None => default_encoder(),
        },
    }
}

/// A value as it is written to the `.env` file: escaped and quoted.
pub open spec fn escaped(v: Seq<char>) -> Seq<char>
    decreases v.len(),
{
    if v.len() == 0 {
        Seq::empty()
    } else {
        let c = v.last();
        escaped(v.drop_last()) + if c == '\\' || c == '"' || c == '$' {
            seq!['\\', c]
        } else {
            seq![c]
        }
    }
}

pub open spec fn env_quote_spec(v: Seq<char>) -> Seq<char> {
    seq!['"'] + escaped(v) + seq!['"']
}

/// Quote a .env value: wrap in double quotes and escape `\`, `"` and `$` so that
/// paths containing spaces, backslashes (Windows) or shell metacharacters round-trip
/// through `dotenvy` without being split or interpolated.
pub fn env_quote(value: &str) -> (r: String)
    ensures
        r@ == env_quote_spec(value@),
{
    let v = str_chars(value);
    let mut out = vec!['"'];
    let mut i: usize = 0;
    while i < v.len()
        invariant
            i <= v.len(),
            out@ == seq!['"'] + escaped(v@.take(i as int)),
        decreases v.len() - i,
    {
        let c = v[i];
        assert(v@.take(i + 1).drop_last() =~= v@.take(i as int));
        assert(v@.take(i + 1).last() == c);
        if c == '\\' || c == '"' || c == '$' {
            out.push('\\');
        }
        out.push(c);
        assert(out@ =~= seq!['"'] + escaped(v@.take(i + 1)));
        i += 1;
    }
    assert(v@.take(v.len() as int) =~= v@);
    out.push('"');
    string_of(&out)
}

/// Reading back an escaped value: a `\` takes the character after it as it
/// is.
pub open spec fn unescaped(e: Seq<char>) -> Seq<char>
    decreases e.len(),
{
    if e.len() == 0 {
        Seq::empty()
    } else if e[0] == '\\' && e.len() >= 2 {
        seq![e[1]] + unescaped(e.subrange(2, e.len() as int))
    } else {
        seq![e[0]] + unescaped(e.drop_first())
    }
}

proof fn lemma_unescaped_append(a: Seq<char>, b: Seq<char>)
    ensures
        unescaped(escaped(a) + b) == a + unescaped(b),
    decreases a.len(),
{
    if a.len() == 0 {
        assert(escaped(a) + b =~= b);
        assert(a + unescaped(b) =~= unescaped(b));
    } else {
        let c = a[0];
        let rest = a.drop_first();
        lemma_escaped_first(a);
        let head = if c == '\\' || c == '"' || c == '$' {
            seq!['\\', c]
        } else {
            seq![c]
        };
        assert(escaped(a) + b =~= head + (escaped(rest) + b));
        lemma_unescaped_append(rest, b);
        if c == '\\' || c == '"' || c == '$' {
            assert((head + (escaped(rest) + b)).subrange(2, (head + (escaped(rest) + b)).len() as int) =~= escaped(rest) + b);
        } else {
            assert((head + (escaped(rest) + b)).drop_first() =~= escaped(rest) + b);
        }
        assert(a =~= seq![c] + rest);
    }
}

proof fn lemma_escaped_first(a: Seq<char>)
    requires
        a.len() > 0,
    ensures
        escaped(a) == (if a[0] == '\\' || a[0] == '"' || a[0] == '$' {
            seq!['\\', a[0]]
        } else {
            seq![a[0]]
        }) + escaped(a.drop_first()),
    decreases a.len(),
{
    if a.len() == 1 {
        assert(a.drop_last() =~= Seq::<char>::empty());
        assert(a.drop_first() =~= Seq::<char>::empty());
    } else {
        lemma_escaped_first(a.drop_last());
        assert(a.drop_last().drop_first() =~= a.drop_first().drop_last());
        assert(a.drop_first().last() == a.last());
    }
}

/// A quoted value reads back as what was quoted: between the quotes, every
/// `\`, `"` and `$` is escaped, so no quote ends the value early and reading
/// the escapes gives the value again.
pub proof fn lemma_env_quote_round_trip(v: Seq<char>)
    ensures
        env_quote_spec(v)[0] == '"',
        env_quote_spec(v).last() == '"',
        unescaped(env_quote_spec(v).subrange(1, env_quote_spec(v).len() - 1)) == v,
{
    let q = env_quote_spec(v);
    assert(q.subrange(1, q.len() - 1) =~= escaped(v));
    lemma_unescaped_append(v, Seq::empty());
    assert(escaped(v) + Seq::<char>::empty() =~= escaped(v));
    assert(v + unescaped(Seq::<char>::empty()) =~= v);
}

pub open spec fn env_line(key: Seq<char>, value: Seq<char>) -> Seq<char> {
    key + seq!['='] + value + seq!['\n']
}

pub open spec fn key_media() -> Seq<char> {
    seq!['C', 'A', 'S', 'T', '_', 'M', 'E', 'D', 'I', 'A', '_', 'P', 'A', 'T', 'H']
}

pub open spec fn key_tmdb() -> Seq<char> {
    seq!['T', 'M', 'D', 'B', '_', 'A', 'P', 'I', '_', 'K', 'E', 'Y']
}

pub open spec fn key_name() -> Seq<char> {
    seq!['C', 'A', 'S', 'T', '_', 'S', 'E', 'R', 'V', 'E', 'R', '_', 'N', 'A', 'M', 'E']
}

pub open spec fn key_port() -> Seq<char> {
    seq!['C', 'A', 'S', 'T', '_', 'P', 'O', 'R', 'T']
}

pub open spec fn key_encoder() -> Seq<char> {
    seq!['C', 'A', 'S', 'T', '_', 'E', 'N', 'C', 'O', 'D', 'E', 'R']
}

/// The `.env` text of the settings: the media path always; the TMDB key
/// where set; the name where not the default; the port always; the encoder
/// where set and not `auto`. Text values are quoted.
pub open spec fn env_file_spec(media: Seq<char>, key: Seq<char>, name: Seq<char>, port: u16, encoder: Seq<char>) -> Seq<char> {
    env_line(key_media(), env_quote_spec(media)) + (if key.len() > 0 {
        env_line(key_tmdb(), env_quote_spec(key))
    } else {
        Seq::empty()
    }) + (if name != default_server_name() {
        env_line(key_name(), env_quote_spec(name))
    } else {
        Seq::empty()
    }) + env_line(key_port(), crate::text::decimal(port as nat)) + (if encoder.len() > 0 && encoder
        != word_auto() {
        env_line(key_encoder(), env_quote_spec(encoder))
    } else {
        Seq::empty()
    })
}

fn push_line(out: &mut Vec<char>, key: &Vec<char>, value: &Vec<char>)
    ensures
        final(out)@ == old(out)@ + env_line(key@, value@),
{
    append_chars(out, key);
    out.push('=');
    append_chars(out, value);
    out.push('\n');
    assert(final(out)@ =~= old(out)@ + env_line(key@, value@));
}

/// The text of the `.env` file that holds the settings.
pub fn env_file_content(config: &AppConfig) -> (r: String)
    ensures
        r@ == env_file_spec(config.media_path@, config.tmdb_key@, config.server_name@, config.port, config.encoder@),
{
    let mut out: Vec<char> = Vec::new();
    let q = env_quote(config.media_path.as_str());
    push_line(&mut out, &vec!['C', 'A', 'S', 'T', '_', 'M', 'E', 'D', 'I', 'A', '_', 'P', 'A', 'T', 'H'], &str_chars(q.as_str()));
    let ghost a = out@;
    if str_chars(config.tmdb_key.as_str()).len() > 0 {
        let q = env_quote(config.tmdb_key.as_str());
        push_line(&mut out, &vec!['T', 'M', 'D', 'B', '_', 'A', 'P', 'I', '_', 'K', 'E', 'Y'], &str_chars(q.as_str()));
    } else {
        assert(a + Seq::<char>::empty() =~= a);
    }
    let ghost b = out@;
    let name = str_chars(config.server_name.as_str());
    let default_name = vec!['C', 'a', 's', 't', ' ', 'S', 'e', 'r', 'v', 'e', 'r'];
    assert(default_name@ =~= default_server_name());
    if !chars_eq(&name, &default_name) {
        let q = env_quote(config.server_name.as_str());
        push_line(&mut out, &vec!['C', 'A', 'S', 'T', '_', 'S', 'E', 'R', 'V', 'E', 'R', '_', 'N', 'A', 'M', 'E'], &str_chars(q.as_str()));
    } else {
        assert(b + Seq::<char>::empty() =~= b);
    }
    let p = crate::text::decimal_exec(config.port as u64);
    push_line(&mut out, &vec!['C', 'A', 'S', 'T', '_', 'P', 'O', 'R', 'T'], &p);
    let ghost c = out@;
    let enc = str_chars(config.encoder.as_str());
    let auto = vec!['a', 'u', 't', 'o'];
    assert(auto@ =~= word_auto());
    if enc.len() > 0 && !chars_eq(&enc, &auto) {
        let q = env_quote(config.encoder.as_str());
        push_line(&mut out, &vec!['C', 'A', 'S', 'T', '_', 'E', 'N', 'C', 'O', 'D', 'E', 'R'], &str_chars(q.as_str()));
    } else {
        assert(c + Seq::<char>::empty() =~= c);
    }
    proof {
        assert(seq!['C', 'A', 'S', 'T', '_', 'M', 'E', 'D', 'I', 'A', '_', 'P', 'A', 'T', 'H'] =~= key_media());
        assert(seq!['T', 'M', 'D', 'B', '_', 'A', 'P', 'I', '_', 'K', 'E', 'Y'] =~= key_tmdb());
        assert(seq!['C', 'A', 'S', 'T', '_', 'S', 'E', 'R', 'V', 'E', 'R', '_', 'N', 'A', 'M', 'E'] =~= key_name());
        assert(seq!['C', 'A', 'S', 'T', '_', 'P', 'O', 'R', 'T'] =~= key_port());
        assert(seq!['C', 'A', 'S', 'T', '_', 'E', 'N', 'C', 'O', 'D', 'E', 'R'] =~= key_encoder());
    }
    string_of(&out)
}

/// Why settings cannot be saved.
#[derive(Debug, Clone, Copy, PartialEq, Eq, Structural)]
pub enum ConfigProblem {
    /// The media path is empty or only white space.
    MediaPathMissing,
    /// The media folder does not exist.
    MediaFolderMissing,
    /// The media path is not a folder.
    NotAFolder,
    /// The port is 0.
    PortZero,
}

/// Whether settings can be saved, given whether their media path exists
/// and is a folder: the first problem, in the order they are checked.
pub fn check_config(config: &AppConfig, exists: bool, is_dir: bool) -> (r: Result<(), ConfigProblem>)
    ensures
        r == (if trim(config.media_path@).len() == 0 {
            Err(ConfigProblem::MediaPathMissing)
        } else if !exists {
            Err(ConfigProblem::MediaFolderMissing)
        } else if !is_dir {
            Err(ConfigProblem::NotAFolder)
        } else if config.port == 0 {
            Err(ConfigProblem::PortZero)
        } else {
            Ok(())
        }),
{
    let m = str_chars(config.media_path.as_str());
    if trim_vec(&m).len() == 0 {
        Err(ConfigProblem::MediaPathMissing)
    } else if !exists {
        Err(ConfigProblem::MediaFolderMissing)
    } else if !is_dir {
        Err(ConfigProblem::NotAFolder)
    } else if config.port == 0 {
        Err(ConfigProblem::PortZero)
    } else {
        Ok(())
    }
}

pub open spec fn msg_path_required() -> Seq<char> {
    seq!['M', 'e', 'd', 'i', 'a', ' ', 'p', 'a', 't', 'h', ' ', 'i', 's', ' ', 'r', 'e', 'q', 'u', 'i', 'r', 'e', 'd']
}

pub open spec fn msg_folder_missing() -> Seq<char> {
    seq!['M', 'e', 'd', 'i', 'a', ' ', 'f', 'o', 'l', 'd', 'e', 'r', ' ', 'd', 'o', 'e', 's', ' ', 'n', 'o', 't', ' ', 'e', 'x', 'i', 's', 't', ':', ' ']
}

pub open spec fn msg_not_folder() -> Seq<char> {
    seq!['M', 'e', 'd', 'i', 'a', ' ', 'p', 'a', 't', 'h', ' ', 'i', 's', ' ', 'n', 'o', 't', ' ', 'a', ' ', 'd', 'i', 'r', 'e', 'c', 't', 'o', 'r', 'y', ':', ' ']
}

pub open spec fn msg_port() -> Seq<char> {
    seq!['P', 'o', 'r', 't', ' ', 'm', 'u', 's', 't', ' ', 'b', 'e', ' ', 'b', 'e', 't', 'w', 'e', 'e', 'n', ' ', '1', ' ', 'a', 'n', 'd', ' ', '6', '5', '5', '3', '5']
}

/// The message shown for a problem with the settings.
pub fn config_problem_message(p: ConfigProblem, media_path: &str) -> (r: String)
    ensures
        r@ == match p {
            ConfigProblem::MediaPathMissing => msg_path_required(),
            ConfigProblem::MediaFolderMissing => msg_folder_missing() + media_path@,
            ConfigProblem::NotAFolder => msg_not_folder() + media_path@,
            ConfigProblem::PortZero => msg_port(),
        },
{
    let v = match p {
        ConfigProblem::MediaPathMissing => {
            let v = vec!['M', 'e', 'd', 'i', 'a', ' ', 'p', 'a', 't', 'h', ' ', 'i', 's', ' ', 'r', 'e', 'q', 'u', 'i', 'r', 'e', 'd'];
            assert(v@ =~= msg_path_required());
            v
        },
        ConfigProblem::MediaFolderMissing => {
            let mut v = vec!['M', 'e', 'd', 'i', 'a', ' ', 'f', 'o', 'l', 'd', 'e', 'r', ' ', 'd', 'o', 'e', 's', ' ', 'n', 'o', 't', ' ', 'e', 'x', 'i', 's', 't', ':', ' '];
            assert(v@ =~= msg_folder_missing());
            append_chars(&mut v, &str_chars(media_path));
            v
        },
        ConfigProblem::NotAFolder => {
            let mut v = vec!['M', 'e', 'd', 'i', 'a', ' ', 'p', 'a', 't', 'h', ' ', 'i', 's', ' ', 'n', 'o', 't', ' ', 'a', ' ', 'd', 'i', 'r', 'e', 'c', 't', 'o', 'r', 'y', ':', ' '];
            assert(v@ =~= msg_not_folder());
            append_chars(&mut v, &str_chars(media_path));
            v
        },
        ConfigProblem::PortZero => {
            let v = vec!['P', 'o', 'r', 't', ' ', 'm', 'u', 's', 't', ' ', 'b', 'e', ' ', 'b', 'e', 't', 'w', 'e', 'e', 'n', ' ', '1', ' ', 'a', 'n', 'd', ' ', '6', '5', '5', '3', '5'];
            assert(v@ =~= msg_port());
            v
        },
    };
    string_of(&v)
}

// ---------------------------------------------------------------------------
// Starting the server
// ---------------------------------------------------------------------------

/// Configuration for starting the Cast server
pub struct ServerConfig {
    pub media_path: String,
    pub port: u16,
    pub name: String,
    pub tmdb_key: Option<String>,
    /// Encoder override: "auto" (default) | nvenc | qsv | amf | videotoolbox | software
    pub encoder_override: Option<String>,
}

fn copy_string(s: &String) -> (r: String)
    ensures
        r@ == s@,
{
    string_of(&str_chars(s.as_str()))
}

/// The server configuration of the desktop settings: an empty TMDB key or
/// encoder counts as unset.
pub fn server_config(config: &AppConfig) -> (r: ServerConfig)
    ensures
        r.media_path@ == config.media_path@,
        r.port == config.port,
        r.name@ == config.server_name@,
        opt_view(r.tmdb_key) == if config.tmdb_key@.len() == 0 {
            None
        } else {
            Some(config.tmdb_key@)
        },
        opt_view(r.encoder_override) == if config.encoder@.len() == 0 {
            None
        } else {
            Some(config.encoder@)
        },
{
    ServerConfig {
        media_path: copy_string(&config.media_path),
        port: config.port,
        name: copy_string(&config.server_name),
        tmdb_key: if str_chars(config.tmdb_key.as_str()).len() == 0 {
            None
        } else {
            Some(copy_string(&config.tmdb_key))
        },
        encoder_override: if str_chars(config.encoder.as_str()).len() == 0 {
            None
        } else {
            Some(copy_string(&config.encoder))
        },
    }
}

// ---------------------------------------------------------------------------
// Dropped files
// ---------------------------------------------------------------------------

/// The extensions of video files that the window takes when dropped.
pub open spec fn dropped_video_extensions() -> Seq<Seq<char>> {
    seq![seq!['m', 'p', '4'], seq!['m', 'k', 'v'], seq!['a', 'v', 'i'], seq!['w', 'e', 'b', 'm'], seq!['m', 'o', 'v'], seq!['m', '4', 'v']]
}

pub open spec fn is_dropped_video(path: Seq<char>) -> bool {
    match crate::paths::extension(path) {
        Some(e) => crate::library::in_list(crate::text::unicode_lowercase(e), dropped_video_extensions()),
        None => false,
    }
}

/// The dropped paths of the first `n` that are videos, in order.
pub open spec fn dropped_videos_spec(paths: Seq<Seq<char>>, n: int) -> Seq<Seq<char>>
    decreases n,
{
    if n <= 0 || n > paths.len() {
        Seq::empty()
    } else {
        let prev = dropped_videos_spec(paths, n - 1);
        if is_dropped_video(paths[n - 1]) {
            prev.push(paths[n - 1])
        } else {
            prev
        }
    }
}

/// The dropped files that are videos (mp4, mkv, avi, webm, mov, m4v, in
/// any case), in order.
pub fn dropped_videos(paths: &Vec<String>) -> (r: Vec<String>)
    requires
        forall|k: int| 0 <= k < paths@.len() ==> (#[trigger] paths@[k])@.len() < isize::MAX,
    ensures
        r@.map_values(|p: String| p@) == dropped_videos_spec(paths@.map_values(|p: String| p@), paths@.len() as int),
        forall|k: int| 0 <= k < paths@.len() ==> match crate::paths::extension(#[trigger] paths@[k]@) {
            Some(e) => crate::text::all_ascii(e) ==> is_dropped_video(paths@[k]@) == crate::library::in_list(
                crate::text::ascii_lowercase(e),
                dropped_video_extensions(),
            ),
            None => true,
        },
{
    let ghost pv = paths@.map_values(|p: String| p@);
    let exts = vec![vec!['m', 'p', '4'], vec!['m', 'k', 'v'], vec!['a', 'v', 'i'], vec!['w', 'e', 'b', 'm'], vec!['m', 'o', 'v'], vec!['m', '4', 'v']];
    assert(exts.deep_view() =~~= dropped_video_extensions());
    let mut r: Vec<String> = Vec::new();
    let mut i: usize = 0;
    while i < paths.len()
        invariant
            i <= paths.len(),
            pv == paths@.map_values(|p: String| p@),
            exts.deep_view() == dropped_video_extensions(),
            forall|k: int| 0 <= k < paths@.len() ==> (#[trigger] paths@[k])@.len() < isize::MAX,
            r@.map_values(|p: String| p@) == dropped_videos_spec(pv, i as int),
            forall|k: int| 0 <= k < i ==> match crate::paths::extension(#[trigger] paths@[k]@) {
                Some(e) => crate::text::all_ascii(e) ==> is_dropped_video(paths@[k]@) == crate::library::in_list(
                    crate::text::ascii_lowercase(e),
                    dropped_video_extensions(),
                ),
                None => true,
            },
        decreases paths.len() - i,
    {
        assert(pv[i as int] == paths@[i as int]@);
        if crate::library::has_extension_in(paths[i].as_str(), &exts) {
            let t = copy_string(&paths[i]);
            let ghost before = r@;
            r.push(t);
            assert(r@.map_values(|p: String| p@) =~= before.map_values(|p: String| p@).push(t@));
        }
        i += 1;
    }
    r
}

} // verus!
