//! The arguments that are handed on to a decoder.

use vstd::prelude::*;
use crate::text::{
    chars_of, eq_ignore_case, has_prefix, lower, parse_decimal, parse_unsigned, split,
    split_at_char, starts_with, string_of, to_lower,
};

verus! {

/// Where the argument `name` stands among `args`, looking from `from` on and without regard
/// to the case of ASCII letters; the length of `args` where it does not occur.
pub open spec fn find_arg(args: Seq<String>, name: Seq<char>, from: int) -> int
    decreases args.len() - from,
{
    if from >= args.len() {
        args.len() as int
    } else if lower(args[from]@) == lower(name) {
        from
    } else {
        find_arg(args, name, from + 1)
    }
}

/// Where the first piece stands that names a driver, looking from `from` on: one that begins
/// with `driver=`, in small or capital letters; the length of `pieces` where none does.
pub open spec fn first_driver(pieces: Seq<Seq<char>>, from: int) -> int
    decreases pieces.len() - from,
{
    if from >= pieces.len() {
        pieces.len() as int
    } else if has_prefix(lower(pieces[from]), "driver="@) {
        from
    } else {
        first_driver(pieces, from + 1)
    }
}

/// The driver that the arguments name: the first piece that begins with `driver=` of the
/// comma-separated argument that follows `--soapysdr`.
pub open spec fn driver_of(args: Seq<String>) -> Option<Seq<char>> {
    let i = find_arg(args, "--soapysdr"@, 0);
    if i + 1 >= args.len() {
        None
    } else {
        let pieces = split(args[i + 1]@, ',');
        let k = first_driver(pieces, 0);
        if k < pieces.len() {
            Some(pieces[k])
        } else {
            None
        }
    }
}

/// Where the argument `name` stands among `args`.
pub fn position_of(args: &Vec<String>, name: &str) -> (out: Option<usize>)
    ensures
        out matches Some(i) ==> i < args@.len() && find_arg(args@, name@, 0) == i,
        out is None ==> find_arg(args@, name@, 0) == args@.len(),
{
    let wanted = chars_of(name);
    let mut i: usize = 0;
    while i < args.len()
        invariant
            i <= args.len(),
            wanted@ == name@,
            find_arg(args@, name@, 0) == find_arg(args@, name@, i as int),
        decreases args.len() - i,
    {
        if eq_ignore_case(&chars_of(args[i].as_str()), &wanted) {
            return Some(i);
        }
        i += 1;
    }
    None
}

/// The driver that the decoder's arguments name.
pub fn extract_soapysdr_driver(args: &Vec<String>) -> (out: Option<String>)
    ensures
        text_model(out) == driver_of(args@),
{
    let i = match position_of(args, "--soapysdr") {
        Some(i) => i,
        None => {
            return None;
        },
    };
    if i >= args.len() - 1 {
        return None;
    }
    let value = &args[i + 1];
    let pieces = split_at_char(&chars_of(value.as_str()), ',');
    let prefix = chars_of("driver=");
    let mut k: usize = 0;
    while k < pieces.len()
        invariant
            k <= pieces.len(),
            prefix@ == "driver="@,
            i + 1 < args@.len(),
            find_arg(args@, "--soapysdr"@, 0) == i,
            *value == args@[i + 1],
            pieces@.len() == split(value@, ',').len(),
            forall|j: int| 0 <= j < pieces@.len() ==> (#[trigger] pieces@[j])@ == split(value@, ',')[j],
            first_driver(split(value@, ','), 0) == first_driver(split(value@, ','), k as int),
        decreases pieces.len() - k,
    {
        assert(pieces@[k as int]@ == split(value@, ',')[k as int]);
        if starts_with(&to_lower(&pieces[k]), &prefix) {
            return Some(string_of(&pieces[k]));
        }
        k += 1;
    }
    None
}

/// The text of a value that may be missing.
pub open spec fn text_model(s: Option<String>) -> Option<Seq<char>> {
    match s {
        Some(t) => Some(t@),
        None => None,
    }
}

/// The arguments do not fit the feed: the address of the feed stands at `index`, and it is
/// not the value of an `--output` argument.
#[derive(Clone, Copy, Debug, PartialEq, Eq, Structural)]
pub struct MisplacedFeed {
    pub index: usize,
}

/// What becomes of the decoder's arguments when frames are also fed to `target`: nothing
/// where the arguments name the target as an output already, an error where they name it
/// otherwise, and else `--output` and the target are added at the end.
pub open spec fn fed(args: Seq<String>, target: Seq<char>) -> Result<Seq<Seq<char>>, MisplacedFeed> {
    let i = find_arg(args, target, 0);
    let texts = Seq::new(args.len(), |k: int| args[k]@);
    if i < args.len() {
        if i == 0 || lower(args[i - 1]@) != lower("--output"@) {
            Err(MisplacedFeed { index: i as usize })
        } else {
            Ok(texts)
        }
    } else {
        Ok(texts.push("--output"@).push(target))
    }
}

/// The texts of `args`, in order.
pub open spec fn texts_of(args: Seq<String>) -> Seq<Seq<char>> {
    Seq::new(args.len(), |k: int| args[k]@)
}

/// A copy of `args`.
pub fn copy_args(args: &Vec<String>) -> (out: Vec<String>)
    ensures
        out@ == args@,
{
    let mut out: Vec<String> = Vec::new();
    let mut i: usize = 0;
    while i < args.len()
        invariant
            i <= args.len(),
            out@ == args@.take(i as int),
        decreases args.len() - i,
    {
        out.push(args[i].clone());
        assert(args@.take(i + 1) =~= args@.take(i as int).push(args@[i as int]));
        i += 1;
    }
    assert(args@.take(args.len() as int) =~= args@);
    out
}

/// The decoder's arguments for a session that also feeds its frames to `target`.
pub fn feed_arguments(args: &Vec<String>, target: &str) -> (out: Result<Vec<String>, MisplacedFeed>)
    ensures
        out matches Ok(v) ==> Ok::<Seq<Seq<char>>, MisplacedFeed>(texts_of(v@)) == fed(args@, target@),
        out matches Err(e) ==> Err::<Seq<Seq<char>>, MisplacedFeed>(e) == fed(args@, target@),
{
    let mut out = copy_args(args);
    match position_of(args, target) {
        Some(i) => {
            if i == 0 || !eq_ignore_case(&chars_of(args[i - 1].as_str()), &chars_of("--output")) {
                return Err(MisplacedFeed { index: i });
            }
            assert(texts_of(out@) =~= texts_of(args@));
        },
        None => {
            out.push("--output".to_owned());
            out.push(target.to_owned());
            assert(texts_of(out@) =~= texts_of(args@).push("--output"@).push(target@));
        },
    }
    Ok(out)
}

/// The index of the search engine where the command line names none.
pub const DEFAULT_ELASTIC_INDEX: &'static str = "xng_acars_db";

/// The number that an option gives: the one it writes where it writes one no larger than
/// `max`, and else `fallback`.
pub open spec fn number_or(value: Option<String>, max: u64, fallback: u64) -> u64 {
    match value {
        Some(t) => match parse_unsigned(t@, max as nat) {
            Some(n) => n as u64,
            None => fallback,
        },
        None => fallback,
    }
}

/// Reads the number that an option gives.
pub fn parse_number(value: Option<&String>, max: u64, fallback: u64) -> (out: u64)
    ensures
        out == number_or(
            match value {
                Some(t) => Some(*t),
                None => None,
            },
            max,
            fallback,
        ),
        out <= max || out == fallback,
{
    match value {
        Some(t) => match parse_decimal(&chars_of(t.as_str()), max) {
            Some(n) => n,
            None => fallback,
        },
        None => fallback,
    }
}

/// The text that an option gives, or `fallback` where the option is not given.
pub fn text_or(value: Option<&String>, fallback: &str) -> (out: String)
    ensures
        out@ == (match value {
            Some(t) => t@,
            None => fallback@,
        }),
{
    match value {
        Some(t) => t.clone(),
        None => fallback.to_owned(),
    }
}

/// The token that requests to the interface must carry.
pub fn parse_api_token(value: Option<&String>) -> (out: Option<&String>)
    ensures
        out == value,
{
    value
}

/// The host that the interface listens on.
pub fn parse_listen_host(value: Option<&String>, default_host: &str) -> (out: String)
    ensures
        out@ == (match value {
            Some(t) => t@,
            None => default_host@,
        }),
{
    text_or(value, default_host)
}

/// The port that the interface listens on.
pub fn parse_listen_port(value: Option<&String>, default_port: u16) -> (out: u16)
    ensures
        out as u64 == number_or(
            match value {
                Some(t) => Some(*t),
                None => None,
            },
            u16::MAX as u64,
            default_port as u64,
        ),
{
    parse_number(value, u16::MAX as u64, default_port as u64) as u16
}

/// The address of the search engine.
pub fn parse_elastic_url(value: Option<&String>) -> (out: Option<&String>)
    ensures
        out == value,
{
    value
}

/// The index of the search engine that takes the frames.
pub fn parse_elastic_index(value: Option<&String>) -> (out: String)
    ensures
        out@ == (match value {
            Some(t) => t@,
            None => DEFAULT_ELASTIC_INDEX@,
        }),
{
    text_or(value, DEFAULT_ELASTIC_INDEX)
}

/// The address of the store.
pub fn parse_state_db_url(value: Option<&String>, default_url: &str) -> (out: String)
    ensures
        out@ == (match value {
            Some(t) => t@,
            None => default_url@,
        }),
{
    text_or(value, default_url)
}

/// The path of the decoder.
pub fn parse_bin_path(value: Option<&String>, default_path: &str) -> (out: String)
    ensures
        out@ == (match value {
            Some(t) => t@,
            None => default_path@,
        }),
{
    text_or(value, default_path)
}

/// Whether the arguments name a station for the feed.
pub fn names_station(args: &Vec<String>) -> (out: bool)
    ensures
        out == (find_arg(args@, "--station-id"@, 0) < args@.len()),
{
    position_of(args, "--station-id").is_some()
}

/// Why the command line of a module was refused.
#[derive(Clone, Copy, Debug, PartialEq, Eq, Structural)]
pub enum ArgumentError {
    /// No arguments for the decoder are given.
    MissingArguments,
    /// The decoder's arguments name no driver.
    MissingDriver,
    /// Frames are to be fed on, but the decoder's arguments name no station.
    MissingStationId,
    InvalidSchedule(crate::schedule::ScheduleError),
    InvalidMethod,
    /// A starting frequency is none of the datalink.
    InvalidBands,
}

} // verus!
