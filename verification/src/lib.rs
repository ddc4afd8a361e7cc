//! Playback orchestration for a terminal client of a remote music catalog.
//!
//! The crate holds the decisions of the three actors of a session (the engine
//! event loop, the terminal actor and the media-session actor) as state
//! machines over plain values, together with the command grammar, the playback
//! clock and the catalog helpers they rest on.

pub mod fanout;
pub mod help;
pub mod libmpv_handler;
pub mod mc_os_interface;
pub mod projection;
pub mod text;
pub mod tui;

use crate::libmpv_handler::EngineFault;
use crate::text::{
    chars_of, parse_i64, push_str, signed_decimal, starts_with, string_of, tail_of, trimmed_end,
    trimmed_len,
};
use vstd::prelude::*;

verus! {

/// A track of the remote catalog.
#[derive(Debug, Clone, PartialEq, Eq)]
pub struct AudioFile {
    pub id: String,
    pub path: String,
    pub mime: String,
}

/// One thing that the command line asks for.
#[derive(Debug, Clone, PartialEq, Eq)]
pub enum ProgramOption {
    URL(String),
    PrintHelp,
    Volume(i64),
    Verbose,
}

/// What can go wrong in a session.
#[derive(Debug, Clone, PartialEq, Eq)]
pub enum SonicTunesError {
    /// An argument of the command line that is no option; it holds the argument.
    InvalidOption(String),
    /// Neither the command line nor a run before gives the catalog's address.
    InvalidOptionsStructure,
    /// The engine failed at a command or at reading a property.
    EngineFault(EngineFault),
    /// The catalog could not be read, or it lists no track.
    CatalogUnavailable,
}

/// The address of the catalog at `url` with `path` behind it: `url` without
/// the slashes at its end, then `path`.
pub open spec fn spec_catalog_address(url: Seq<char>, path: Seq<char>) -> Seq<char> {
    trimmed_end(url, '/') + path
}

/// The address from which the track with the identifier `id` is streamed.
pub open spec fn spec_audiofile_url(url: Seq<char>, id: Seq<char>) -> Seq<char> {
    spec_catalog_address(url, "/file/"@) + id
}

/// Appends the catalog's address without the slashes at its end, then `path`.
fn push_catalog_address(out: &mut Vec<char>, url: &str, path: &str)
    ensures
        final(out)@ == old(out)@ + spec_catalog_address(url@, path@),
{
    let base = chars_of(url);
    let n = trimmed_len(&base, '/');
    let mut i: usize = 0;
    while i < n
        invariant
            i <= n <= base.len(),
            out@ == old(out)@ + base@.take(i as int),
        decreases n - i,
    {
        out.push(base[i]);
        assert(base@.take(i + 1) == base@.take(i as int).push(base@[i as int]));
        i += 1;
    }
    push_str(out, path);
    assert(out@ == old(out)@ + (trimmed_end(url@, '/') + path@));
}

/// The address that lists the tracks of the catalog at `url`.
pub fn files_url(url: &str) -> (r: String)
    ensures
        r@ == spec_catalog_address(url@, "/files"@),
{
    let mut out: Vec<char> = Vec::new();
    push_catalog_address(&mut out, url, "/files");
    string_of(&out)
}

/// The address that tells whether the catalog at `url` is up.
pub fn ping_url(url: &str) -> (r: String)
    ensures
        r@ == spec_catalog_address(url@, "/ping"@),
{
    let mut out: Vec<char> = Vec::new();
    push_catalog_address(&mut out, url, "/ping");
    string_of(&out)
}

/// The address from which `audiofile` is streamed by the catalog at `url`.
pub fn audiofile_to_url(url: &str, audiofile: &AudioFile) -> (r: String)
    ensures
        r@ == spec_audiofile_url(url@, audiofile.id@),
{
    let mut out: Vec<char> = Vec::new();
    push_catalog_address(&mut out, url, "/file/");
    push_str(&mut out, audiofile.id.as_str());
    string_of(&out)
}

/// A number drawn by `rand::random_range` of the crate `rand` from the range
/// that begins at 0 and ends before `n`. It is taken on trust that the number
/// lies in that range; nothing is claimed of how the numbers are spread. The
/// range must not be empty: on an empty one the call panics.
#[verifier::external_body]
fn random_index(n: usize) -> (i: usize)
    requires
        n > 0,
    ensures
        i < n,
{
    rand::random_range(0..n)
}

/// The track at the position `index` of `audiofiles`.
pub fn pick_audiofile(audiofiles: &Vec<AudioFile>, index: usize) -> (r: AudioFile)
    requires
        index < audiofiles.len(),
    ensures
        r == audiofiles[index as int],
{
    let f = &audiofiles[index];
    AudioFile { id: f.id.clone(), path: f.path.clone(), mime: f.mime.clone() }
}

/// One track of the catalog's listing, drawn at random; a track may be drawn
/// again and again. An empty listing gives no track.
pub fn get_random_audiofile(audiofiles: &Vec<AudioFile>) -> (r: Result<AudioFile, SonicTunesError>)
    ensures
        audiofiles.len() == 0 <==> r is Err,
        r is Err ==> r == Err::<AudioFile, SonicTunesError>(SonicTunesError::CatalogUnavailable),
        r matches Ok(f) ==> exists|i: int| 0 <= i < audiofiles.len() && f == audiofiles[i],
{
    if audiofiles.len() == 0 {
        return Err(SonicTunesError::CatalogUnavailable);
    }
    let index = random_index(audiofiles.len());
    Ok(pick_audiofile(audiofiles, index))
}

/// The continuation policy: the address of the track to play next, one of
/// the catalog's listing drawn at random, or nothing where the listing could
/// not be had or is empty.
pub fn next_address(url: &str, listing: Option<Vec<AudioFile>>) -> (r: Option<String>)
    ensures
        r is Some <==> (listing matches Some(files) && files.len() > 0),
        r matches Some(address) ==> exists|i: int|
            0 <= i < listing->0.len() && address@ == spec_audiofile_url(url@, listing->0[i].id@),
{
    match listing {
        None => None,
        Some(files) => match get_random_audiofile(&files) {
            Ok(file) => Some(audiofile_to_url(url, &file)),
            Err(_) => None,
        },
    }
}

/// What the argument `arg` asks for: `--help`, `--verbose`, or `--volume=`
/// with a number from 0 to 100 behind it. Anything else is no option.
pub open spec fn spec_option(arg: String) -> Result<ProgramOption, SonicTunesError> {
    if arg@ == "--help"@ {
        Ok(ProgramOption::PrintHelp)
    } else if arg@ == "--verbose"@ {
        Ok(ProgramOption::Verbose)
    } else if "--volume="@.is_prefix_of(arg@) {
        match signed_decimal(arg@.skip(9)) {
            Some(n) => if 0 <= n <= 100 {
                Ok(ProgramOption::Volume(n as i64))
            } else {
                Err(SonicTunesError::InvalidOption(arg))
            },
            None => Err(SonicTunesError::InvalidOption(arg)),
        }
    } else {
        Err(SonicTunesError::InvalidOption(arg))
    }
}

/// What the arguments `args` ask for, in their order; the first that is no
/// option makes them invalid.
pub open spec fn spec_options(args: Seq<String>) -> Result<Seq<ProgramOption>, SonicTunesError>
    decreases args.len(),
{
    if args.len() == 0 {
        Ok(Seq::empty())
    } else {
        match spec_options(args.drop_last()) {
            Ok(options) => match spec_option(args.last()) {
                Ok(option) => Ok(options.push(option)),
                Err(e) => Err(e),
            },
            Err(e) => Err(e),
        }
    }
}

/// What a command line asks for. Where its last argument begins with `http`
/// that argument is the catalog's address, which comes first in the result,
/// and the arguments before it are options; else every argument is an option.
/// A command line may thus give no address: it is for the caller to find one.
pub open spec fn spec_process_args(args: Seq<String>) -> Result<
    Seq<ProgramOption>,
    SonicTunesError,
> {
    if args.len() > 0 && "http"@.is_prefix_of(args.last()@) {
        match spec_options(args.drop_last()) {
            Ok(options) => Ok(seq![ProgramOption::URL(args.last())] + options),
            Err(e) => Err(e),
        }
    } else {
        spec_options(args)
    }
}

/// Reads one option.
fn process_option(arg: &String) -> (r: Result<ProgramOption, SonicTunesError>)
    ensures
        r == spec_option(*arg),
{
    let text = chars_of(arg.as_str());
    let help = chars_of("--help");
    let verbose = chars_of("--verbose");
    let volume = chars_of("--volume=");
    proof {
        reveal_strlit("--volume=");
    }
    if crate::text::same_text(&text, &help) {
        Ok(ProgramOption::PrintHelp)
    } else if crate::text::same_text(&text, &verbose) {
        Ok(ProgramOption::Verbose)
    } else if starts_with(&text, &volume) {
        let number = tail_of(&text, 9);
        match parse_i64(&number) {
            Some(n) => {
                if 0 <= n && n <= 100 {
                    Ok(ProgramOption::Volume(n))
                } else {
                    Err(SonicTunesError::InvalidOption(arg.clone()))
                }
            },
            None => Err(SonicTunesError::InvalidOption(arg.clone())),
        }
    } else {
        Err(SonicTunesError::InvalidOption(arg.clone()))
    }
}

/// Reads the arguments of the command line, the program's name left out.
pub fn process_args(args: Vec<String>) -> (r: Result<Vec<ProgramOption>, SonicTunesError>)
    ensures
        match r {
            Ok(options) => spec_process_args(args@) == Ok::<Seq<ProgramOption>, SonicTunesError>(
                options@,
            ),
            Err(e) => spec_process_args(args@) == Err::<Seq<ProgramOption>, SonicTunesError>(e),
        },
{
    let mut options: Vec<ProgramOption> = Vec::new();
    let http = chars_of("http");
    let mut n: usize = args.len();
    if args.len() > 0 {
        let last = &args[args.len() - 1];
        let last_text = chars_of(last.as_str());
        if starts_with(&last_text, &http) {
            options.push(ProgramOption::URL(last.clone()));
            n = args.len() - 1;
        }
    }
    let ghost head = options@;
    let ghost rest = args@.take(n as int);
    let ghost done = Seq::<ProgramOption>::empty();
    assert(n < args.len() ==> rest == args@.drop_last());
    assert(n == args.len() ==> rest == args@);
    let mut i: usize = 0;
    assert(rest.take(0) == Seq::<String>::empty());
    assert(options@ == head + done);
    while i < n
        invariant
            i <= n <= args.len(),
            rest == args@.take(n as int),
            n == args.len() ==> rest == args@ && head.len() == 0 && !(args.len() > 0
                && "http"@.is_prefix_of(args@.last()@)),
            n < args.len() ==> rest == args@.drop_last() && "http"@.is_prefix_of(args@.last()@)
                && head == seq![ProgramOption::URL(args@.last())],
            spec_options(rest.take(i as int)) == Ok::<Seq<ProgramOption>, SonicTunesError>(done),
            options@ == head + done,
        decreases n - i,
    {
        assert(rest.take(i + 1).drop_last() == rest.take(i as int));
        assert(rest.take(i + 1).last() == args[i as int]);
        match process_option(&args[i]) {
            Ok(option) => {
                options.push(option);
                proof {
                    done = done.push(option);
                }
                assert(options@ == head + done);
            },
            Err(e) => {
                proof {
                    assert(spec_options(rest.take(i + 1)) == Err::<
                        Seq<ProgramOption>,
                        SonicTunesError,
                    >(e));
                    lemma_options_fail(rest, i as int);
                }
                return Err(e);
            },
        }
        i += 1;
    }
    assert(rest.take(n as int) == rest);
    Ok(options)
}

/// Arguments that are invalid stay invalid, with the same error, when more
/// arguments follow them.
proof fn lemma_options_fail(args: Seq<String>, i: int)
    requires
        0 <= i < args.len(),
        spec_options(args.take(i + 1)) is Err,
    ensures
        spec_options(args) == spec_options(args.take(i + 1)),
    decreases args.len(),
{
    if i + 1 < args.len() {
        assert(args.drop_last().take(i + 1) == args.take(i + 1));
        lemma_options_fail(args.drop_last(), i);
    } else {
        assert(args.take(i + 1) == args);
    }
}

/// The text that tells how the program `name` is called.
pub open spec fn spec_usage(name: Seq<char>) -> Seq<char> {
    "Usage: "@ + name + " [OPTIONS] SUBSONICVAULT_URL\n"@ + "       "@ + name + " --help\n"@
        + "Options:\n"@ + "\t --volume=<value>\t(0..100)\n"@ + "\t --verbose\n"@ + "\t --help\n"@
}

/// Writes the text that tells how the program `name` is called, for the
/// caller to print.
pub fn print_help(name: &str) -> (r: String)
    ensures
        r@ == spec_usage(name@),
{
    let mut out: Vec<char> = Vec::new();
    push_str(&mut out, "Usage: ");
    push_str(&mut out, name);
    push_str(&mut out, " [OPTIONS] SUBSONICVAULT_URL\n");
    push_str(&mut out, "       ");
    push_str(&mut out, name);
    push_str(&mut out, " --help\n");
    push_str(&mut out, "Options:\n");
    push_str(&mut out, "\t --volume=<value>\t(0..100)\n");
    push_str(&mut out, "\t --verbose\n");
    push_str(&mut out, "\t --help\n");
    assert(out@ == spec_usage(name@));
    string_of(&out)
}

/// What a session is set up with, drawn once from the command line.
#[derive(Debug, Clone, PartialEq, Eq)]
pub struct Config {
    /// The catalog's address, where the command line gives one.
    pub url: Option<String>,
    /// The volume to start with, in percent.
    pub volume: i64,
    pub verbose: bool,
    /// Whether the command line asks for the usage text.
    pub help: bool,
}

/// The volume that a session starts with where the command line gives none.
pub const DEFAULT_VOLUME: i64 = 50;

/// What `options` set up: the first address and the first volume among them
/// count, and the volume is 50 where they give none.
pub open spec fn spec_config(options: Seq<ProgramOption>) -> Config
    decreases options.len(),
{
    if options.len() == 0 {
        Config { url: None, volume: DEFAULT_VOLUME, verbose: false, help: false }
    } else {
        let rest = spec_config(options.drop_first());
        match options.first() {
            ProgramOption::URL(url) => Config { url: Some(url), ..rest },
            ProgramOption::PrintHelp => Config { help: true, ..rest },
            ProgramOption::Volume(volume) => Config { volume, ..rest },
            ProgramOption::Verbose => Config { verbose: true, ..rest },
        }
    }
}

impl Config {
    /// Draws the configuration from what the command line asks for.
    pub fn from_options(options: &Vec<ProgramOption>) -> (config: Config)
        ensures
            config == spec_config(options@),
    {
        let mut config = Config { url: None, volume: DEFAULT_VOLUME, verbose: false, help: false };
        let mut i: usize = options.len();
        assert(options@.skip(i as int) == Seq::<ProgramOption>::empty());
        while i > 0
            invariant
                i <= options.len(),
                config == spec_config(options@.skip(i as int)),
            decreases i,
        {
            i -= 1;
            assert(options@.skip(i as int).drop_first() == options@.skip(i + 1));
            assert(options@.skip(i as int).first() == options[i as int]);
            match &options[i] {
                ProgramOption::URL(url) => {
                    config.url = Some(url.clone());
                },
                ProgramOption::PrintHelp => {
                    config.help = true;
                },
                ProgramOption::Volume(volume) => {
                    config.volume = *volume;
                },
                ProgramOption::Verbose => {
                    config.verbose = true;
                },
            }
        }
        assert(options@.skip(0) == options@);
        config
    }
}

/// The catalog's address for a session: the one that the command line gives,
/// else the one remembered from a run before; without either the command line
/// is invalid.
pub fn catalog_address(config: &Config, remembered: Option<String>) -> (r: Result<
    String,
    SonicTunesError,
>)
    ensures
        r == match (config.url, remembered) {
            (Some(url), _) => Ok::<String, SonicTunesError>(url),
            (None, Some(url)) => Ok(url),
            (None, None) => Err(SonicTunesError::InvalidOptionsStructure),
        },
{
    match &config.url {
        Some(url) => Ok(url.clone()),
        None => match remembered {
            Some(url) => Ok(url),
            None => Err(SonicTunesError::InvalidOptionsStructure),
        },
    }
}

/// The name under which the program `name` in the version `version` speaks to
/// the catalog.
pub fn user_agent(name: &str, version: &str) -> (r: String)
    ensures
        r@ == name@ + seq!['/'] + version@,
{
    let mut out: Vec<char> = Vec::new();
    push_str(&mut out, name);
    out.push('/');
    push_str(&mut out, version);
    string_of(&out)
}

/// Whether the catalog's answer to a ping says that it is up: its status is
/// `ok` and nothing else.
pub fn ping_is_ok(status: &str) -> (r: bool)
    ensures
        r == (status@ == "ok"@),
{
    let text = chars_of(status);
    crate::text::is_word(&text, "ok")
}

} // verus!
