//! Decisions behind the HTTP API: byte ranges, encoders, codecs, subtitle
//! labels, path containment and which episode to play next.
use vstd::prelude::*;
use crate::text::{
    str_chars, string_of, sub_vec, append_chars, chars_eq, str_is, trim, trim_vec, parse_u64,
    parse_u64_exec, pair_lookup, pair_lookup_exec, unicode_lowercase, to_lowercase,
    unicode_char_uppercase, char_to_uppercase, contains_seq, contains_exec, occurs_at,
    occurs_at_exec, starts_with, str_lt, str_lt_exec,
};
use crate::paths::extension;
use crate::library::{in_list, has_extension_in, Series, Episode, EpisodeView, SeriesView};

verus! {

/// The languages that have a display name, each with its code.
pub open spec fn language_names() -> Seq<(Seq<char>, Seq<char>)> {
    seq![
        (seq!['e', 'n'], seq!['E', 'n', 'g', 'l', 'i', 's', 'h']),
        (seq!['s', 'v'], seq!['S', 'w', 'e', 'd', 'i', 's', 'h']),
        (seq!['d', 'e'], seq!['G', 'e', 'r', 'm', 'a', 'n']),
        (seq!['f', 'r'], seq!['F', 'r', 'e', 'n', 'c', 'h']),
        (seq!['e', 's'], seq!['S', 'p', 'a', 'n', 'i', 's', 'h']),
        (seq!['n', 'o'], seq!['N', 'o', 'r', 'w', 'e', 'g', 'i', 'a', 'n']),
        (seq!['d', 'a'], seq!['D', 'a', 'n', 'i', 's', 'h']),
        (seq!['f', 'i'], seq!['F', 'i', 'n', 'n', 'i', 's', 'h']),
    ]
}

fn language_names_exec() -> (r: Vec<(Vec<char>, Vec<char>)>)
    ensures
        r@.len() == language_names().len(),
        forall|i: int| 0 <= i < r@.len() ==> (#[trigger] r@[i]).0@ == language_names()[i].0 && r@[i].1@ == language_names()[i].1,
{
    let r = vec![
        (vec!['e', 'n'], vec!['E', 'n', 'g', 'l', 'i', 's', 'h']),
        (vec!['s', 'v'], vec!['S', 'w', 'e', 'd', 'i', 's', 'h']),
        (vec!['d', 'e'], vec!['G', 'e', 'r', 'm', 'a', 'n']),
        (vec!['f', 'r'], vec!['F', 'r', 'e', 'n', 'c', 'h']),
        (vec!['e', 's'], vec!['S', 'p', 'a', 'n', 'i', 's', 'h']),
        (vec!['n', 'o'], vec!['N', 'o', 'r', 'w', 'e', 'g', 'i', 'a', 'n']),
        (vec!['d', 'a'], vec!['D', 'a', 'n', 'i', 's', 'h']),
        (vec!['f', 'i'], vec!['F', 'i', 'n', 'n', 'i', 's', 'h']),
    ];
    assert(r@.len() == language_names().len());
    r
}

/// The hardware encoders that have a display name.
pub open spec fn encoder_labels() -> Seq<(Seq<char>, Seq<char>)> {
    seq![
        (seq!['h', '2', '6', '4', '_', 'n', 'v', 'e', 'n', 'c'], seq!['N', 'V', 'I', 'D', 'I', 'A', ' ', 'N', 'V', 'E', 'N', 'C', ' ', '(', 'h', '2', '6', '4', '_', 'n', 'v', 'e', 'n', 'c', ')']),
        (seq!['h', '2', '6', '4', '_', 'q', 's', 'v'], seq!['I', 'n', 't', 'e', 'l', ' ', 'Q', 'u', 'i', 'c', 'k', 'S', 'y', 'n', 'c', ' ', '(', 'h', '2', '6', '4', '_', 'q', 's', 'v', ')']),
        (seq!['h', '2', '6', '4', '_', 'a', 'm', 'f'], seq!['A', 'M', 'D', ' ', 'A', 'M', 'F', ' ', '(', 'h', '2', '6', '4', '_', 'a', 'm', 'f', ')']),
        (seq!['h', '2', '6', '4', '_', 'v', 'i', 'd', 'e', 'o', 't', 'o', 'o', 'l', 'b', 'o', 'x'], seq!['A', 'p', 'p', 'l', 'e', ' ', 'V', 'i', 'd', 'e', 'o', 'T', 'o', 'o', 'l', 'b', 'o', 'x', ' ', '(', 'h', '2', '6', '4', '_', 'v', 'i', 'd', 'e', 'o', 't', 'o', 'o', 'l', 'b', 'o', 'x', ')']),
    ]
}

fn encoder_labels_exec() -> (r: Vec<(Vec<char>, Vec<char>)>)
    ensures
        r@.len() == encoder_labels().len(),
        forall|i: int| 0 <= i < r@.len() ==> (#[trigger] r@[i]).0@ == encoder_labels()[i].0 && r@[i].1@ == encoder_labels()[i].1,
{
    let r = vec![
        (vec!['h', '2', '6', '4', '_', 'n', 'v', 'e', 'n', 'c'], vec!['N', 'V', 'I', 'D', 'I', 'A', ' ', 'N', 'V', 'E', 'N', 'C', ' ', '(', 'h', '2', '6', '4', '_', 'n', 'v', 'e', 'n', 'c', ')']),
        (vec!['h', '2', '6', '4', '_', 'q', 's', 'v'], vec!['I', 'n', 't', 'e', 'l', ' ', 'Q', 'u', 'i', 'c', 'k', 'S', 'y', 'n', 'c', ' ', '(', 'h', '2', '6', '4', '_', 'q', 's', 'v', ')']),
        (vec!['h', '2', '6', '4', '_', 'a', 'm', 'f'], vec!['A', 'M', 'D', ' ', 'A', 'M', 'F', ' ', '(', 'h', '2', '6', '4', '_', 'a', 'm', 'f', ')']),
        (vec!['h', '2', '6', '4', '_', 'v', 'i', 'd', 'e', 'o', 't', 'o', 'o', 'l', 'b', 'o', 'x'], vec!['A', 'p', 'p', 'l', 'e', ' ', 'V', 'i', 'd', 'e', 'o', 'T', 'o', 'o', 'l', 'b', 'o', 'x', ' ', '(', 'h', '2', '6', '4', '_', 'v', 'i', 'd', 'e', 'o', 't', 'o', 'o', 'l', 'b', 'o', 'x', ')']),
    ];
    assert(r@.len() == encoder_labels().len());
    r
}

/// The names an encoder may be requested by, each with the encoder.
pub open spec fn encoder_aliases() -> Seq<(Seq<char>, Seq<char>)> {
    seq![
        (seq!['n', 'v', 'e', 'n', 'c'], seq!['h', '2', '6', '4', '_', 'n', 'v', 'e', 'n', 'c']),
        (seq!['h', '2', '6', '4', '_', 'n', 'v', 'e', 'n', 'c'], seq!['h', '2', '6', '4', '_', 'n', 'v', 'e', 'n', 'c']),
        (seq!['q', 's', 'v'], seq!['h', '2', '6', '4', '_', 'q', 's', 'v']),
        (seq!['h', '2', '6', '4', '_', 'q', 's', 'v'], seq!['h', '2', '6', '4', '_', 'q', 's', 'v']),
        (seq!['a', 'm', 'f'], seq!['h', '2', '6', '4', '_', 'a', 'm', 'f']),
        (seq!['h', '2', '6', '4', '_', 'a', 'm', 'f'], seq!['h', '2', '6', '4', '_', 'a', 'm', 'f']),
        (seq!['v', 'i', 'd', 'e', 'o', 't', 'o', 'o', 'l', 'b', 'o', 'x'], seq!['h', '2', '6', '4', '_', 'v', 'i', 'd', 'e', 'o', 't', 'o', 'o', 'l', 'b', 'o', 'x']),
        (seq!['v', 't'], seq!['h', '2', '6', '4', '_', 'v', 'i', 'd', 'e', 'o', 't', 'o', 'o', 'l', 'b', 'o', 'x']),
        (seq!['h', '2', '6', '4', '_', 'v', 'i', 'd', 'e', 'o', 't', 'o', 'o', 'l', 'b', 'o', 'x'], seq!['h', '2', '6', '4', '_', 'v', 'i', 'd', 'e', 'o', 't', 'o', 'o', 'l', 'b', 'o', 'x']),
    ]
}

fn encoder_aliases_exec() -> (r: Vec<(Vec<char>, Vec<char>)>)
    ensures
        r@.len() == encoder_aliases().len(),
        forall|i: int| 0 <= i < r@.len() ==> (#[trigger] r@[i]).0@ == encoder_aliases()[i].0 && r@[i].1@ == encoder_aliases()[i].1,
{
    let r = vec![
        (vec!['n', 'v', 'e', 'n', 'c'], vec!['h', '2', '6', '4', '_', 'n', 'v', 'e', 'n', 'c']),
        (vec!['h', '2', '6', '4', '_', 'n', 'v', 'e', 'n', 'c'], vec!['h', '2', '6', '4', '_', 'n', 'v', 'e', 'n', 'c']),
        (vec!['q', 's', 'v'], vec!['h', '2', '6', '4', '_', 'q', 's', 'v']),
        (vec!['h', '2', '6', '4', '_', 'q', 's', 'v'], vec!['h', '2', '6', '4', '_', 'q', 's', 'v']),
        (vec!['a', 'm', 'f'], vec!['h', '2', '6', '4', '_', 'a', 'm', 'f']),
        (vec!['h', '2', '6', '4', '_', 'a', 'm', 'f'], vec!['h', '2', '6', '4', '_', 'a', 'm', 'f']),
        (vec!['v', 'i', 'd', 'e', 'o', 't', 'o', 'o', 'l', 'b', 'o', 'x'], vec!['h', '2', '6', '4', '_', 'v', 'i', 'd', 'e', 'o', 't', 'o', 'o', 'l', 'b', 'o', 'x']),
        (vec!['v', 't'], vec!['h', '2', '6', '4', '_', 'v', 'i', 'd', 'e', 'o', 't', 'o', 'o', 'l', 'b', 'o', 'x']),
        (vec!['h', '2', '6', '4', '_', 'v', 'i', 'd', 'e', 'o', 't', 'o', 'o', 'l', 'b', 'o', 'x'], vec!['h', '2', '6', '4', '_', 'v', 'i', 'd', 'e', 'o', 't', 'o', 'o', 'l', 'b', 'o', 'x']),
    ];
    assert(r@.len() == encoder_aliases().len());
    r
}

/// The extensions of files that are remuxed to MP4, in lowercase.
pub open spec fn remux_extensions() -> Seq<Seq<char>> {
    seq![seq!['m', 'k', 'v'], seq!['a', 'v', 'i'], seq!['w', 'e', 'b', 'm'], seq!['f', 'l', 'v']]
}

fn remux_extensions_exec() -> (r: Vec<Vec<char>>)
    ensures
        r.deep_view() == remux_extensions(),
{
    let r = vec![vec!['m', 'k', 'v'], vec!['a', 'v', 'i'], vec!['w', 'e', 'b', 'm'], vec!['f', 'l', 'v']];
    assert(r.deep_view() =~~= remux_extensions());
    r
}

pub open spec fn msg_transcoding() -> Seq<char> {
    seq!['T', 'r', 'a', 'n', 's', 'c', 'o', 'd', 'i', 'n', 'g', ' ', 'e', 'n', 'c', 'o', 'd', 'e', 'r', ':', ' ']
}

fn msg_transcoding_exec() -> (r: Vec<char>)
    ensures
        r@ == msg_transcoding(),
{
    let r = vec!['T', 'r', 'a', 'n', 's', 'c', 'o', 'd', 'i', 'n', 'g', ' ', 'e', 'n', 'c', 'o', 'd', 'e', 'r', ':', ' '];
    assert(r@ =~= msg_transcoding());
    r
}

pub open spec fn msg_auto() -> Seq<char> {
    seq![' ', '(', 'a', 'u', 't', 'o', ')']
}

fn msg_auto_exec() -> (r: Vec<char>)
    ensures
        r@ == msg_auto(),
{
    let r = vec![' ', '(', 'a', 'u', 't', 'o', ')'];
    assert(r@ =~= msg_auto());
    r
}

pub open spec fn msg_software() -> Seq<char> {
    seq!['T', 'r', 'a', 'n', 's', 'c', 'o', 'd', 'i', 'n', 'g', ' ', 'e', 'n', 'c', 'o', 'd', 'e', 'r', ':', ' ', 's', 'o', 'f', 't', 'w', 'a', 'r', 'e', ' ', '(', 'l', 'i', 'b', 'x', '2', '6', '4', ')', ' ', '—', ' ', 'e', 'x', 'p', 'l', 'i', 'c', 'i', 't', 'l', 'y', ' ', 'r', 'e', 'q', 'u', 'e', 's', 't', 'e', 'd']
}

fn msg_software_exec() -> (r: Vec<char>)
    ensures
        r@ == msg_software(),
{
    let r = vec!['T', 'r', 'a', 'n', 's', 'c', 'o', 'd', 'i', 'n', 'g', ' ', 'e', 'n', 'c', 'o', 'd', 'e', 'r', ':', ' ', 's', 'o', 'f', 't', 'w', 'a', 'r', 'e', ' ', '(', 'l', 'i', 'b', 'x', '2', '6', '4', ')', ' ', '—', ' ', 'e', 'x', 'p', 'l', 'i', 'c', 'i', 't', 'l', 'y', ' ', 'r', 'e', 'q', 'u', 'e', 's', 't', 'e', 'd'];
    assert(r@ =~= msg_software());
    r
}

pub open spec fn msg_unknown() -> Seq<char> {
    seq!['U', 'n', 'k', 'n', 'o', 'w', 'n', ' ', 'e', 'n', 'c', 'o', 'd', 'e', 'r', ' ', '\'']
}

fn msg_unknown_exec() -> (r: Vec<char>)
    ensures
        r@ == msg_unknown(),
{
    let r = vec!['U', 'n', 'k', 'n', 'o', 'w', 'n', ' ', 'e', 'n', 'c', 'o', 'd', 'e', 'r', ' ', '\''];
    assert(r@ =~= msg_unknown());
    r
}

pub open spec fn msg_unknown_mid() -> Seq<char> {
    seq!['\'', ',', ' ', 'f', 'a', 'l', 'l', 'i', 'n', 'g', ' ', 'b', 'a', 'c', 'k', ' ', 't', 'o', ' ']
}

fn msg_unknown_mid_exec() -> (r: Vec<char>)
    ensures
        r@ == msg_unknown_mid(),
{
    let r = vec!['\'', ',', ' ', 'f', 'a', 'l', 'l', 'i', 'n', 'g', ' ', 'b', 'a', 'c', 'k', ' ', 't', 'o', ' '];
    assert(r@ =~= msg_unknown_mid());
    r
}

pub open spec fn msg_requested() -> Seq<char> {
    seq![' ', '(', 'r', 'e', 'q', 'u', 'e', 's', 't', 'e', 'd', ')']
}

fn msg_requested_exec() -> (r: Vec<char>)
    ensures
        r@ == msg_requested(),
{
    let r = vec![' ', '(', 'r', 'e', 'q', 'u', 'e', 's', 't', 'e', 'd', ')'];
    assert(r@ =~= msg_requested());
    r
}

pub open spec fn msg_unavailable() -> Seq<char> {
    seq!['R', 'e', 'q', 'u', 'e', 's', 't', 'e', 'd', ' ', 'e', 'n', 'c', 'o', 'd', 'e', 'r', ' ']
}

fn msg_unavailable_exec() -> (r: Vec<char>)
    ensures
        r@ == msg_unavailable(),
{
    let r = vec!['R', 'e', 'q', 'u', 'e', 's', 't', 'e', 'd', ' ', 'e', 'n', 'c', 'o', 'd', 'e', 'r', ' '];
    assert(r@ =~= msg_unavailable());
    r
}

pub open spec fn msg_unavailable_mid() -> Seq<char> {
    seq![' ', 'i', 's', 'n', '\'', 't', ' ', 'a', 'v', 'a', 'i', 'l', 'a', 'b', 'l', 'e', ' ', 'o', 'n', ' ', 't', 'h', 'i', 's', ' ', 'm', 'a', 'c', 'h', 'i', 'n', 'e', ';', ' ', 'f', 'a', 'l', 'l', 'i', 'n', 'g', ' ', 'b', 'a', 'c', 'k', ' ', 't', 'o', ' ']
}

fn msg_unavailable_mid_exec() -> (r: Vec<char>)
    ensures
        r@ == msg_unavailable_mid(),
{
    let r = vec![' ', 'i', 's', 'n', '\'', 't', ' ', 'a', 'v', 'a', 'i', 'l', 'a', 'b', 'l', 'e', ' ', 'o', 'n', ' ', 't', 'h', 'i', 's', ' ', 'm', 'a', 'c', 'h', 'i', 'n', 'e', ';', ' ', 'f', 'a', 'l', 'l', 'i', 'n', 'g', ' ', 'b', 'a', 'c', 'k', ' ', 't', 'o', ' '];
    assert(r@ =~= msg_unavailable_mid());
    r
}

pub open spec fn word_software_open() -> Seq<char> {
    seq!['s', 'o', 'f', 't', 'w', 'a', 'r', 'e', ' ', '(']
}

fn word_software_open_exec() -> (r: Vec<char>)
    ensures
        r@ == word_software_open(),
{
    let r = vec!['s', 'o', 'f', 't', 'w', 'a', 'r', 'e', ' ', '('];
    assert(r@ =~= word_software_open());
    r
}

pub open spec fn word_close() -> Seq<char> {
    seq![')']
}

fn word_close_exec() -> (r: Vec<char>)
    ensures
        r@ == word_close(),
{
    let r = vec![')'];
    assert(r@ =~= word_close());
    r
}

pub open spec fn word_auto() -> Seq<char> {
    seq!['a', 'u', 't', 'o']
}

fn word_auto_exec() -> (r: Vec<char>)
    ensures
        r@ == word_auto(),
{
    let r = vec!['a', 'u', 't', 'o'];
    assert(r@ =~= word_auto());
    r
}

pub open spec fn word_software() -> Seq<char> {
    seq!['s', 'o', 'f', 't', 'w', 'a', 'r', 'e']
}

fn word_software_exec() -> (r: Vec<char>)
    ensures
        r@ == word_software(),
{
    let r = vec!['s', 'o', 'f', 't', 'w', 'a', 'r', 'e'];
    assert(r@ =~= word_software());
    r
}

pub open spec fn word_libx264() -> Seq<char> {
    seq!['l', 'i', 'b', 'x', '2', '6', '4']
}

fn word_libx264_exec() -> (r: Vec<char>)
    ensures
        r@ == word_libx264(),
{
    let r = vec!['l', 'i', 'b', 'x', '2', '6', '4'];
    assert(r@ =~= word_libx264());
    r
}

pub open spec fn word_hevc() -> Seq<char> {
    seq!['h', 'e', 'v', 'c']
}

fn word_hevc_exec() -> (r: Vec<char>)
    ensures
        r@ == word_hevc(),
{
    let r = vec!['h', 'e', 'v', 'c'];
    assert(r@ =~= word_hevc());
    r
}

pub open spec fn word_h265() -> Seq<char> {
    seq!['h', '2', '6', '5']
}

fn word_h265_exec() -> (r: Vec<char>)
    ensures
        r@ == word_h265(),
{
    let r = vec!['h', '2', '6', '5'];
    assert(r@ =~= word_h265());
    r
}

pub open spec fn word_10le() -> Seq<char> {
    seq!['1', '0', 'l', 'e']
}

fn word_10le_exec() -> (r: Vec<char>)
    ensures
        r@ == word_10le(),
{
    let r = vec!['1', '0', 'l', 'e'];
    assert(r@ =~= word_10le());
    r
}

pub open spec fn word_10be() -> Seq<char> {
    seq!['1', '0', 'b', 'e']
}

fn word_10be_exec() -> (r: Vec<char>)
    ensures
        r@ == word_10be(),
{
    let r = vec!['1', '0', 'b', 'e'];
    assert(r@ =~= word_10be());
    r
}

pub open spec fn word_vp9() -> Seq<char> {
    seq!['v', 'p', '9']
}

fn word_vp9_exec() -> (r: Vec<char>)
    ensures
        r@ == word_vp9(),
{
    let r = vec!['v', 'p', '9'];
    assert(r@ =~= word_vp9());
    r
}

pub open spec fn word_av1() -> Seq<char> {
    seq!['a', 'v', '1']
}

fn word_av1_exec() -> (r: Vec<char>)
    ensures
        r@ == word_av1(),
{
    let r = vec!['a', 'v', '1'];
    assert(r@ =~= word_av1());
    r
}

pub open spec fn word_bytes_eq() -> Seq<char> {
    seq!['b', 'y', 't', 'e', 's', '=']
}

fn word_bytes_eq_exec() -> (r: Vec<char>)
    ensures
        r@ == word_bytes_eq(),
{
    let r = vec!['b', 'y', 't', 'e', 's', '='];
    assert(r@ =~= word_bytes_eq());
    r
}


// ---------------------------------------------------------------------------
// Remuxing
// ---------------------------------------------------------------------------

/// Whether a file needs remuxing to MP4: its extension, lowercased, is one of
/// [`remux_extensions`].
pub open spec fn needs_remux_spec(path: Seq<char>) -> bool {
    match extension(path) {
        Some(e) => in_list(unicode_lowercase(e), remux_extensions()),
        None => false,
    }
}

/// Check if a file needs remuxing (MKV → MP4) for Apple device compatibility
pub fn needs_remux(path: &str) -> (r: bool)
    requires
        path@.len() < isize::MAX,
    ensures
        r == needs_remux_spec(path@),
        match extension(path@) {
            Some(e) => crate::text::all_ascii(e) ==> r == in_list(crate::text::ascii_lowercase(e), remux_extensions()),
            None => true,
        },
{
    let exts = remux_extensions_exec();
    has_extension_in(path, &exts)
}

// ---------------------------------------------------------------------------
// Encoders
// ---------------------------------------------------------------------------

/// One probe result: encoder name, its ffmpeg args, and whether it's usable on this machine.
pub type EncoderProbe = (&'static str, &'static str, Result<(), String>);

/// The hardware encoders worth probing, in order of preference, each with
/// its ffmpeg arguments (8-bit output, which these encoders need).
pub open spec fn encoder_candidates_spec() -> Seq<(Seq<char>, Seq<char>)> {
    seq![
        (seq!['h', '2', '6', '4', '_', 'n', 'v', 'e', 'n', 'c'], seq!['-', 'p', 'i', 'x', '_', 'f', 'm', 't', ' ', 'y', 'u', 'v', '4', '2', '0', 'p', ' ', '-', 'p', 'r', 'e', 's', 'e', 't', ' ', 'p', '4', ' ', '-', 'r', 'c', ' ', 'v', 'b', 'r', ' ', '-', 'c', 'q', ' ', '2', '3', ' ', '-', 'b', ':', 'v', ' ', '0']),
        (seq!['h', '2', '6', '4', '_', 'q', 's', 'v'], seq!['-', 'p', 'i', 'x', '_', 'f', 'm', 't', ' ', 'n', 'v', '1', '2', ' ', '-', 'p', 'r', 'e', 's', 'e', 't', ' ', 'm', 'e', 'd', 'i', 'u', 'm', ' ', '-', 'g', 'l', 'o', 'b', 'a', 'l', '_', 'q', 'u', 'a', 'l', 'i', 't', 'y', ' ', '2', '3', ' ', '-', 'l', 'o', 'o', 'k', '_', 'a', 'h', 'e', 'a', 'd', ' ', '1']),
        (seq!['h', '2', '6', '4', '_', 'a', 'm', 'f'], seq!['-', 'p', 'i', 'x', '_', 'f', 'm', 't', ' ', 'y', 'u', 'v', '4', '2', '0', 'p', ' ', '-', 'q', 'u', 'a', 'l', 'i', 't', 'y', ' ', 'b', 'a', 'l', 'a', 'n', 'c', 'e', 'd', ' ', '-', 'r', 'c', ' ', 'c', 'q', 'p', ' ', '-', 'q', 'p', '_', 'i', ' ', '2', '2', ' ', '-', 'q', 'p', '_', 'p', ' ', '2', '2']),
        (seq!['h', '2', '6', '4', '_', 'v', 'i', 'd', 'e', 'o', 't', 'o', 'o', 'l', 'b', 'o', 'x'], seq!['-', 'p', 'i', 'x', '_', 'f', 'm', 't', ' ', 'y', 'u', 'v', '4', '2', '0', 'p', ' ', '-', 'q', ':', 'v', ' ', '5', '5']),
    ]
}

/// The hardware encoders worth probing, with their ffmpeg arguments.
pub fn encoder_candidates() -> (r: Vec<(&'static str, &'static str)>)
    ensures
        r@.len() == encoder_candidates_spec().len(),
        forall|i: int| 0 <= i < r@.len() ==> (#[trigger] r@[i]).0@ == encoder_candidates_spec()[i].0 && r@[i].1@ == encoder_candidates_spec()[i].1,
{
    let r = vec![
        ("h264_nvenc", "-pix_fmt yuv420p -preset p4 -rc vbr -cq 23 -b:v 0"),
        ("h264_qsv", "-pix_fmt nv12 -preset medium -global_quality 23 -look_ahead 1"),
        ("h264_amf", "-pix_fmt yuv420p -quality balanced -rc cqp -qp_i 22 -qp_p 22"),
        ("h264_videotoolbox", "-pix_fmt yuv420p -q:v 55"),
    ];
    proof {
        reveal_strlit("h264_nvenc");
        reveal_strlit("-pix_fmt yuv420p -preset p4 -rc vbr -cq 23 -b:v 0");
        reveal_strlit("h264_qsv");
        reveal_strlit("-pix_fmt nv12 -preset medium -global_quality 23 -look_ahead 1");
        reveal_strlit("h264_amf");
        reveal_strlit("-pix_fmt yuv420p -quality balanced -rc cqp -qp_i 22 -qp_p 22");
        reveal_strlit("h264_videotoolbox");
        reveal_strlit("-pix_fmt yuv420p -q:v 55");
        let c = encoder_candidates_spec();
        assert(r@[0].0@ =~= c[0].0 && r@[0].1@ =~= c[0].1);
        assert(r@[1].0@ =~= c[1].0 && r@[1].1@ =~= c[1].1);
        assert(r@[2].0@ =~= c[2].0 && r@[2].1@ =~= c[2].1);
        assert(r@[3].0@ =~= c[3].0 && r@[3].1@ =~= c[3].1);
    }
    r
}

/// The ffmpeg arguments of a probe: one second of a test picture encoded
/// with the encoder, thrown away.
pub open spec fn encoder_probe_args_spec(name: Seq<char>) -> Seq<Seq<char>> {
    seq![
        seq!['-', 'h', 'i', 'd', 'e', '_', 'b', 'a', 'n', 'n', 'e', 'r'],
        seq!['-', 'l', 'o', 'g', 'l', 'e', 'v', 'e', 'l'],
        seq!['e', 'r', 'r', 'o', 'r'],
        seq!['-', 'f'],
        seq!['l', 'a', 'v', 'f', 'i'],
        seq!['-', 'i'],
        seq!['t', 'e', 's', 't', 's', 'r', 'c', '=', 'd', 'u', 'r', 'a', 't', 'i', 'o', 'n', '=', '1', ':', 's', 'i', 'z', 'e', '=', '2', '5', '6', 'x', '2', '5', '6', ':', 'r', 'a', 't', 'e', '=', '2', '5'],
        seq!['-', 'c', ':', 'v'],
        name,
        seq!['-', 'f'],
        seq!['n', 'u', 'l', 'l'],
        seq!['-'],
    ]
}

pub fn encoder_probe_args(name: &str) -> (r: Vec<String>)
    ensures
        r@.map_values(|t: String| t@) == encoder_probe_args_spec(name@),
{
    let parts: Vec<Vec<char>> = vec![
        vec!['-', 'h', 'i', 'd', 'e', '_', 'b', 'a', 'n', 'n', 'e', 'r'],
        vec!['-', 'l', 'o', 'g', 'l', 'e', 'v', 'e', 'l'],
        vec!['e', 'r', 'r', 'o', 'r'],
        vec!['-', 'f'],
        vec!['l', 'a', 'v', 'f', 'i'],
        vec!['-', 'i'],
        vec!['t', 'e', 's', 't', 's', 'r', 'c', '=', 'd', 'u', 'r', 'a', 't', 'i', 'o', 'n', '=', '1', ':', 's', 'i', 'z', 'e', '=', '2', '5', '6', 'x', '2', '5', '6', ':', 'r', 'a', 't', 'e', '=', '2', '5'],
        vec!['-', 'c', ':', 'v'],
        str_chars(name),
        vec!['-', 'f'],
        vec!['n', 'u', 'l', 'l'],
        vec!['-'],
    ];
    assert(parts.deep_view() =~~= encoder_probe_args_spec(name@));
    let mut r: Vec<String> = Vec::new();
    let mut i: usize = 0;
    while i < parts.len()
        invariant
            i <= parts.len(),
            parts.deep_view() == encoder_probe_args_spec(name@),
            r@.map_values(|t: String| t@) == parts.deep_view().take(i as int),
        decreases parts.len() - i,
    {
        let t = string_of(&parts[i]);
        let ghost before = r@;
        r.push(t);
        proof {
            assert(parts.deep_view()[i as int] == parts@[i as int]@);
            assert(r@ == before.push(t));
            assert(r@.map_values(|t: String| t@) =~= before.map_values(|t: String| t@).push(t@));
            assert(parts.deep_view().take(i + 1) =~= parts.deep_view().take(i as int).push(parts.deep_view()[i as int]));
        }
        i += 1;
    }
    assert(parts.deep_view().take(parts.len() as int) =~= parts.deep_view());
    r
}

/// Human-readable name of an encoder id.
pub open spec fn label_spec(encoder: Seq<char>) -> Seq<char> {
    match pair_lookup(encoder_labels(), encoder, 0) {
        Some(l) => l,
        None => word_software_open() + encoder + word_close(),
    }
}

fn label_vec(encoder: &Vec<char>) -> (r: Vec<char>)
    ensures
        r@ == label_spec(encoder@),
{
    let t = encoder_labels_exec();
    match pair_lookup_exec(&t, encoder, Ghost(encoder_labels())) {
        Some(l) => l,
        None => {
            let mut r = word_software_open_exec();
            append_chars(&mut r, encoder);
            let c = word_close_exec();
            append_chars(&mut r, &c);
            r
        },
    }
}

/// Human-readable name of an encoder id.
pub fn label_for(encoder: &str) -> (r: String)
    ensures
        r@ == label_spec(encoder@),
{
    let e = str_chars(encoder);
    let l = label_vec(&e);
    string_of(&l)
}

/// The position of the first probe that succeeded.
pub open spec fn first_ok_from(probes: Seq<EncoderProbe>, i: int) -> Option<int>
    decreases probes.len() - i,
{
    if i < 0 || i >= probes.len() {
        None
    } else if probes[i].2 is Ok {
        Some(i)
    } else {
        first_ok_from(probes, i + 1)
    }
}

/// The software encoder and its arguments.
pub open spec fn software_args() -> Seq<char> {
    seq!['-', 'p', 'i', 'x', '_', 'f', 'm', 't', ' ', 'y', 'u', 'v', '4', '2', '0', 'p', ' ', '-', 'c', 'r', 'f', ' ', '1', '8', ' ', '-', 'p', 'r', 'e', 's', 'e', 't', ' ', 'f', 'a', 's', 't']
}

/// The encoder chosen when none is asked for: the first probed encoder that
/// works, else the software encoder.
pub open spec fn pick_first_ok_spec(probes: Seq<EncoderProbe>, r: (&'static str, &'static str)) -> bool {
    match first_ok_from(probes, 0) {
        Some(i) => r.0 == probes[i].0 && r.1 == probes[i].1,
        None => r.0@ == word_libx264() && r.1@ == software_args(),
    }
}

fn software_encoder() -> (r: (&'static str, &'static str))
    ensures
        r.0@ == word_libx264(),
        r.1@ == software_args(),
{
    let name = "libx264";
    let args = "-pix_fmt yuv420p -crf 18 -preset fast";
    proof {
        reveal_strlit("libx264");
        reveal_strlit("-pix_fmt yuv420p -crf 18 -preset fast");
        assert(name@ =~= word_libx264());
        assert(args@ =~= software_args());
    }
    (name, args)
}

pub fn pick_first_ok(probes: &[EncoderProbe]) -> (r: (&'static str, &'static str))
    ensures
        pick_first_ok_spec(probes@, r),
{
    let mut i: usize = 0;
    while i < probes.len()
        invariant
            i <= probes@.len(),
            first_ok_from(probes@, 0) == first_ok_from(probes@, i as int),
        decreases probes.len() - i,
    {
        if probes[i].2.is_ok() {
            return (probes[i].0, probes[i].1);
        }
        i += 1;
    }
    software_encoder()
}

/// The first probe for the encoder `name` that succeeded.
pub open spec fn found_probe_from(probes: Seq<EncoderProbe>, name: Seq<char>, i: int) -> Option<int>
    decreases probes.len() - i,
{
    if i < 0 || i >= probes.len() {
        None
    } else if probes[i].0@ == name && probes[i].2 is Ok {
        Some(i)
    } else {
        found_probe_from(probes, name, i + 1)
    }
}

/// What [`resolve_encoder`] decides for an override, given the probes:
/// `r` is the chosen encoder and message.
pub open spec fn resolve_encoder_spec(
    choice: Option<Seq<char>>,
    probes: Seq<EncoderProbe>,
    r: ((&'static str, &'static str), String),
) -> bool {
    let ((name, args), msg) = r;
    let auto = choice is None || choice == Some(word_auto()) || choice == Some(Seq::<char>::empty());
    if auto {
        pick_first_ok_spec(probes, (name, args)) && msg@ == msg_transcoding() + label_spec(name@)
            + msg_auto()
    } else if choice == Some(word_software()) || choice == Some(word_libx264()) {
        name@ == word_libx264() && args@ == software_args() && msg@ == msg_software()
    } else {
        let other = choice.unwrap();
        match pair_lookup(encoder_aliases(), other, 0) {
            None => pick_first_ok_spec(probes, (name, args)) && msg@ == msg_unknown() + other
                + msg_unknown_mid() + label_spec(name@),
            Some(full) => match found_probe_from(probes, full, 0) {
                Some(i) => name == probes[i].0 && args == probes[i].1 && msg@ == msg_transcoding()
                    + label_spec(full) + msg_requested(),
                None => pick_first_ok_spec(probes, (name, args)) && msg@ == msg_unavailable() + full
                    + msg_unavailable_mid() + label_spec(name@),
            },
        }
    }
}

proof fn lemma_first_ok(probes: Seq<EncoderProbe>, i: int)
    requires
        0 <= i,
    ensures
        first_ok_from(probes, i) matches Some(j) ==> i <= j < probes.len() && probes[j].2 is Ok,
    decreases probes.len() - i,
{
    if i < probes.len() && !(probes[i].2 is Ok) {
        lemma_first_ok(probes, i + 1);
    }
}

proof fn lemma_found_probe(probes: Seq<EncoderProbe>, name: Seq<char>, i: int)
    requires
        0 <= i,
    ensures
        found_probe_from(probes, name, i) matches Some(j) ==> i <= j < probes.len() && probes[j].2 is Ok,
    decreases probes.len() - i,
{
    if i < probes.len() && !(probes[i].0@ == name && probes[i].2 is Ok) {
        lemma_found_probe(probes, name, i + 1);
    }
}

/// Whatever is asked for, the encoder chosen is the software encoder or
/// one whose probe succeeded on this machine.
pub proof fn lemma_resolved_encoder_works(
    choice: Option<Seq<char>>,
    probes: Seq<EncoderProbe>,
    r: ((&'static str, &'static str), String),
)
    requires
        resolve_encoder_spec(choice, probes, r),
    ensures
        r.0.0@ == word_libx264() || exists|i: int| 0 <= i < probes.len() && probes[i].0 == r.0.0 && probes[i].2 is Ok,
{
    lemma_first_ok(probes, 0);
    match choice {
        Some(other) => {
            lemma_found_probe(probes, match pair_lookup(encoder_aliases(), other, 0) {
                Some(full) => full,
                None => other,
            }, 0);
        },
        None => {},
    }
}

/// An override as it is compared: trimmed and lowercased.
pub open spec fn encoder_choice(override_value: Option<&str>) -> Option<Seq<char>> {
    match override_value {
        Some(s) => Some(unicode_lowercase(trim(s@))),
        None => None,
    }
}

fn concat3(a: &Vec<char>, b: &Vec<char>, c: &Vec<char>) -> (r: Vec<char>)
    ensures
        r@ == a@ + b@ + c@,
{
    let mut r = sub_vec(a, 0, a.len());
    append_chars(&mut r, b);
    append_chars(&mut r, c);
    r
}

/// Resolve an encoder override string (from config/env) into a concrete encoder tuple,
/// given the probe results. Accepts: auto | nvenc | qsv | amf | videotoolbox | software |
/// libx264, plus aliases. Returns `(encoder, args, selection_log_message)`.
#[verifier::loop_isolation(false)]
pub fn resolve_encoder(override_value: Option<&str>, probes: &[EncoderProbe]) -> (r: (
    (&'static str, &'static str),
    String,
))
    ensures
        resolve_encoder_spec(encoder_choice(override_value), probes@, r),
        match override_value {
            Some(s) => crate::text::all_ascii(trim(s@)) ==> encoder_choice(override_value) == Some(
                crate::text::ascii_lowercase(trim(s@)),
            ),
            None => true,
        },
{
    let choice: Option<Vec<char>> = match override_value {
        Some(s) => {
            let v = str_chars(s);
            let t = trim_vec(&v);
            let ts = string_of(&t);
            let l = to_lowercase(ts.as_str());
            Some(str_chars(l.as_str()))
        },
        None => None,
    };
    let auto = match &choice {
        None => true,
        Some(c) => c.len() == 0 || chars_eq(c, &word_auto_exec()),
    };
    proof {
        if choice is Some && choice->0@.len() == 0 {
            assert(choice->0@ =~= Seq::<char>::empty());
        }
    }
    if auto {
        let enc = pick_first_ok(probes);
        let name = str_chars(enc.0);
        let label = label_vec(&name);
        let msg = concat3(&msg_transcoding_exec(), &label, &msg_auto_exec());
        return (enc, string_of(&msg));
    }
    let other = match choice {
        Some(c) => c,
        None => Vec::new(),
    };
    if chars_eq(&other, &word_software_exec()) || chars_eq(&other, &word_libx264_exec()) {
        let enc = software_encoder();
        let msg = msg_software_exec();
        return (enc, string_of(&msg));
    }
    let aliases = encoder_aliases_exec();
    match pair_lookup_exec(&aliases, &other, Ghost(encoder_aliases())) {
        None => {
            let enc = pick_first_ok(probes);
            let name = str_chars(enc.0);
            let label = label_vec(&name);
            let mut msg = concat3(&msg_unknown_exec(), &other, &msg_unknown_mid_exec());
            append_chars(&mut msg, &label);
            (enc, string_of(&msg))
        },
        Some(full) => {
            let mut i: usize = 0;
            while i < probes.len()
                invariant
                    i <= probes@.len(),
                    found_probe_from(probes@, full@, 0) == found_probe_from(probes@, full@, i as int),
                decreases probes.len() - i,
            {
                if str_is(probes[i].0, &full) && probes[i].2.is_ok() {
                    let label = label_vec(&full);
                    let msg = concat3(&msg_transcoding_exec(), &label, &msg_requested_exec());
                    return ((probes[i].0, probes[i].1), string_of(&msg));
                }
                i += 1;
            }
            let enc = pick_first_ok(probes);
            let name = str_chars(enc.0);
            let label = label_vec(&name);
            let mut msg = concat3(&msg_unavailable_exec(), &full, &msg_unavailable_mid_exec());
            append_chars(&mut msg, &label);
            (enc, string_of(&msg))
        },
    }
}

// ---------------------------------------------------------------------------
// Codecs
// ---------------------------------------------------------------------------

/// Whether ffprobe's `codec_name,pix_fmt` line calls for transcoding: VP9,
/// AV1, or 10-bit HEVC.
pub open spec fn needs_transcode(info: Seq<char>) -> bool {
    let is_hevc = starts_with(info, word_hevc()) || starts_with(info, word_h265());
    let is_10bit = contains_seq(info, word_10le()) || contains_seq(info, word_10be());
    starts_with(info, word_vp9()) || starts_with(info, word_av1()) || (is_hevc && is_10bit)
}

/// The encoder for a video, given what ffprobe printed for its first video
/// stream (`None` when ffprobe could not be run): the transcoding encoder
/// when the trimmed output calls for it, else stream copy.
pub fn detect_video_codec(
    probe_output: Option<&str>,
    transcode_encoder: (&'static str, &'static str),
) -> (r: (&'static str, &'static str))
    ensures
        (match probe_output {
            Some(out) => needs_transcode(trim(out@)),
            None => false,
        }) ==> r == transcode_encoder,
        !(match probe_output {
            Some(out) => needs_transcode(trim(out@)),
            None => false,
        }) ==> r.0@ == seq!['c', 'o', 'p', 'y'] && r.1@ == Seq::<char>::empty(),
{
    let copy = "copy";
    let none = "";
    proof {
        reveal_strlit("copy");
        reveal_strlit("");
        assert(copy@ =~= seq!['c', 'o', 'p', 'y']);
        assert(none@ =~= Seq::<char>::empty());
    }
    if let Some(out) = probe_output {
        let v = str_chars(out);
        let info = trim_vec(&v);
        let is_hevc = occurs_at_exec(&info, 0, &word_hevc_exec()) || occurs_at_exec(
            &info,
            0,
            &word_h265_exec(),
        );
        let is_10bit = contains_exec(&info, &word_10le_exec()) || contains_exec(
            &info,
            &word_10be_exec(),
        );
        let is_vp9 = occurs_at_exec(&info, 0, &word_vp9_exec());
        let is_av1 = occurs_at_exec(&info, 0, &word_av1_exec());
        if is_vp9 || is_av1 || (is_hevc && is_10bit) {
            return transcode_encoder;
        }
    }
    (copy, none)
}

// ---------------------------------------------------------------------------
// Subtitle labels
// ---------------------------------------------------------------------------

/// The display name of a subtitle language code: the known languages by
/// name, any other code with its first character uppercased.
pub open spec fn language_label_spec(code: Seq<char>) -> Seq<char> {
    match pair_lookup(language_names(), code, 0) {
        Some(n) => n,
        None => if code.len() == 0 {
            code
        } else {
            unicode_char_uppercase(code[0]) + code.subrange(1, code.len() as int)
        },
    }
}

pub fn language_label(code: &str) -> (r: String)
    ensures
        r@ == language_label_spec(code@),
{
    let c = str_chars(code);
    let t = language_names_exec();
    match pair_lookup_exec(&t, &c, Ghost(language_names())) {
        Some(n) => string_of(&n),
        None => {
            if c.len() == 0 {
                return String::new();
            }
            let up = char_to_uppercase(c[0]);
            let mut r = str_chars(up.as_str());
            let rest = sub_vec(&c, 1, c.len());
            append_chars(&mut r, &rest);
            string_of(&r)
        },
    }
}

// ---------------------------------------------------------------------------
// Byte ranges
// ---------------------------------------------------------------------------

/// Index of the first `-` in `s`, if any.
pub open spec fn first_dash(s: Seq<char>, i: int) -> Option<int>
    decreases s.len() - i,
{
    if i < 0 || i >= s.len() {
        None
    } else if s[i] == '-' {
        Some(i)
    } else {
        first_dash(s, i + 1)
    }
}

/// The two parts of a `Range` header value around its first `-`, if it
/// starts with `bytes=` and has one.
pub open spec fn range_parts(h: Seq<char>) -> Option<(Seq<char>, Seq<char>)> {
    if !starts_with(h, word_bytes_eq()) {
        None
    } else {
        let r = h.subrange(6, h.len() as int);
        match first_dash(r, 0) {
            Some(k) => Some((r.subrange(0, k), r.subrange(k + 1, r.len() as int))),
            None => None,
        }
    }
}

/// The first byte asked for: a suffix range `-N` starts `N` bytes before
/// the end (at 0 when `N` exceeds the size).
pub open spec fn range_start(p0: Seq<char>, p1: Seq<char>, size: u64) -> Option<u64> {
    if p0.len() == 0 {
        match parse_u64(p1) {
            Some(n) => Some(if n > size { 0 } else { (size - n) as u64 }),
            None => None,
        }
    } else {
        parse_u64(p0)
    }
}

/// The inclusive byte range `(start, end)` that a `Range` header asks of a
/// file of `size` bytes: `bytes=A-B`, `bytes=A-` (to the end) or `bytes=-N`
/// (the last `N` bytes); the end is clipped to the last byte; `None` when the
/// header does not read or the range does not start inside the file.
pub open spec fn parse_range_spec(h: Seq<char>, size: u64) -> Option<(u64, u64)> {
    match range_parts(h) {
        None => None,
        Some((p0, p1)) => match range_start(p0, p1, size) {
            None => None,
            Some(start) => {
                let end: Option<u64> = if p0.len() == 0 || p1.len() == 0 {
                    Some((size - 1) as u64)
                } else {
                    parse_u64(p1)
                };
                match end {
                    None => None,
                    Some(end) => if start <= end && start < size {
                        Some((start, if end < size - 1 { end } else { (size - 1) as u64 }))
                    } else {
                        None
                    },
                }
            },
        },
    }
}

pub fn parse_range(range_header: &str, file_size: u64) -> (r: Option<(u64, u64)>)
    ensures
        r == parse_range_spec(range_header@, file_size),
        r matches Some((s, e)) ==> s <= e < file_size,
{
    if file_size == 0 {
        return None;
    }
    let h = str_chars(range_header);
    let prefix = word_bytes_eq_exec();
    if !occurs_at_exec(&h, 0, &prefix) {
        return None;
    }
    let rest = sub_vec(&h, 6, h.len());
    let mut k: usize = 0;
    while k < rest.len() && rest[k] != '-'
        invariant
            k <= rest.len(),
            first_dash(rest@, 0) == first_dash(rest@, k as int),
        decreases rest.len() - k,
    {
        k += 1;
    }
    if k == rest.len() {
        return None;
    }
    let ghost p0 = rest@.subrange(0, k as int);
    let ghost p1 = rest@.subrange(k + 1, rest.len() as int);
    let p1_empty = k + 1 == rest.len();
    let start: u64 = if k == 0 {
        match parse_u64_exec(&rest, k + 1, rest.len()) {
            Some(n) => file_size.saturating_sub(n),
            None => {
                return None;
            },
        }
    } else {
        match parse_u64_exec(&rest, 0, k) {
            Some(n) => n,
            None => {
                return None;
            },
        }
    };
    assert(range_start(p0, p1, file_size) == Some(start));
    let end: u64 = if k == 0 || p1_empty {
        file_size - 1
    } else {
        match parse_u64_exec(&rest, k + 1, rest.len()) {
            Some(n) => n,
            None => {
                return None;
            },
        }
    };
    if start <= end && start < file_size {
        let last = file_size - 1;
        Some((start, if end < last { end } else { last }))
    } else {
        None
    }
}

// ---------------------------------------------------------------------------
// Paths inside the media folder
// ---------------------------------------------------------------------------

/// Whether `path` lies inside `root`, component by component
/// (`Path::starts_with`); both are expected to be canonical. `windows`
/// says whether the paths are Windows paths, where `\` separates
/// components too.
pub fn path_within(path: &str, root: &str, windows: bool) -> (r: bool)
    requires
        path@.len() < isize::MAX,
        root@.len() < isize::MAX,
    ensures
        r == crate::paths::path_starts_with(path@, root@, windows),
{
    let pa = str_chars(path);
    let pb = str_chars(root);
    let a = crate::paths::components_exec(&pa, windows);
    let b = crate::paths::components_exec(&pb, windows);
    assert(a.deep_view().len() == a.len());
    assert(b.deep_view().len() == b.len());
    if b.len() > a.len() {
        return false;
    }
    let mut i: usize = 0;
    while i < b.len()
        invariant
            b.len() <= a.len(),
            i <= b.len(),
            a.deep_view() == crate::paths::components(path@, windows),
            b.deep_view() == crate::paths::components(root@, windows),
            forall|k: int| 0 <= k < i ==> a.deep_view()[k] == b.deep_view()[k],
        decreases b.len() - i,
    {
        assert(a.deep_view()[i as int] == a@[i as int]@);
        assert(b.deep_view()[i as int] == b@[i as int]@);
        if !chars_eq(&a[i], &b[i]) {
            assert(a.deep_view().subrange(0, b.len() as int)[i as int] != b.deep_view()[i as int]);
            assert(a.deep_view().subrange(0, b.len() as int) != b.deep_view());
            return false;
        }
        i += 1;
    }
    assert(a.deep_view().subrange(0, b.len() as int) =~= b.deep_view());
    true
}

// ---------------------------------------------------------------------------
// What to play next
// ---------------------------------------------------------------------------

/// A watch-progress record as the choice of an episode sees it: whether
/// playback has started (a position above zero) and whether it completed.
pub struct ProgressMark {
    pub episode_id: String,
    pub started: bool,
    pub completed: bool,
    pub updated_at: String,
}

pub struct ProgressView {
    pub episode_id: Seq<char>,
    pub started: bool,
    pub completed: bool,
    pub updated_at: Seq<char>,
}

impl View for ProgressMark {
    type V = ProgressView;

    open spec fn view(&self) -> ProgressView {
        ProgressView {
            episode_id: self.episode_id@,
            started: self.started,
            completed: self.completed,
            updated_at: self.updated_at@,
        }
    }
}

/// The episode of a series to play next, by position in its episode list.
#[derive(Debug, Clone, Copy, PartialEq, Eq, Structural)]
pub enum NextEpisode {
    /// The series has no episodes.
    NoEpisodes,
    /// An episode was started and not finished; `progress` is the position
    /// of its record.
    Resume { episode: usize, progress: usize },
    /// The episode after the last one finished.
    Next { episode: usize },
    /// The last episode was finished.
    AllWatched,
    /// Nothing was watched yet: the first episode.
    First,
}

pub open spec fn mark_views(ps: Seq<ProgressMark>) -> Seq<ProgressView> {
    ps.map_values(|p: ProgressMark| p@)
}

pub open spec fn episode_views(es: Seq<Episode>) -> Seq<EpisodeView> {
    es.map_values(|e: Episode| e@)
}

/// The first record from `i` on of an episode that was started and not
/// completed.
pub open spec fn first_in_progress(ps: Seq<ProgressView>, i: int) -> Option<int>
    decreases ps.len() - i,
{
    if i < 0 || i >= ps.len() {
        None
    } else if !ps[i].completed && ps[i].started {
        Some(i)
    } else {
        first_in_progress(ps, i + 1)
    }
}

/// The first episode from `i` on with the given id.
pub open spec fn episode_with_id(es: Seq<EpisodeView>, id: Seq<char>, i: int) -> Option<int>
    decreases es.len() - i,
{
    if i < 0 || i >= es.len() {
        None
    } else if es[i].id == id {
        Some(i)
    } else {
        episode_with_id(es, id, i + 1)
    }
}

/// The first episode from `i` on with the given sort index.
pub open spec fn episode_with_index(es: Seq<EpisodeView>, x: int, i: int) -> Option<int>
    decreases es.len() - i,
{
    if i < 0 || i >= es.len() {
        None
    } else if es[i].index == x {
        Some(i)
    } else {
        episode_with_index(es, x, i + 1)
    }
}

/// Whether some record marks the episode `id` as completed.
pub open spec fn completed_somewhere(ps: Seq<ProgressView>, id: Seq<char>) -> bool {
    exists|k: int| 0 <= k < ps.len() && ps[k].episode_id == id && ps[k].completed
}

/// The largest sort index among the first `n` episodes that some record
/// marks as completed.
pub open spec fn max_completed_upto(es: Seq<EpisodeView>, ps: Seq<ProgressView>, n: int) -> Option<usize>
    decreases n,
{
    if n <= 0 || n > es.len() {
        None
    } else {
        let prev = max_completed_upto(es, ps, n - 1);
        if completed_somewhere(ps, es[n - 1].id) {
            match prev {
                Some(m) => Some(if m < es[n - 1].index { es[n - 1].index } else { m }),
                None => Some(es[n - 1].index),
            }
        } else {
            prev
        }
    }
}

/// The largest sort index of a completed episode.
pub open spec fn max_completed_index(es: Seq<EpisodeView>, ps: Seq<ProgressView>) -> Option<usize> {
    max_completed_upto(es, ps, es.len() as int)
}

/// The smart next episode of a series, given the records of its episodes
/// (most recently updated first): resume the first record's episode that is
/// started and not completed; else the episode after the highest-index
/// completed one (or all watched when there is none after it); else the
/// first episode.
pub open spec fn next_episode_spec(es: Seq<EpisodeView>, ps: Seq<ProgressView>) -> NextEpisode {
    let resume = match first_in_progress(ps, 0) {
        Some(k) => match episode_with_id(es, ps[k].episode_id, 0) {
            Some(j) => Some(NextEpisode::Resume { episode: j as usize, progress: k as usize }),
            None => None,
        },
        None => None,
    };
    if es.len() == 0 {
        NextEpisode::NoEpisodes
    } else if resume is Some {
        resume.unwrap()
    } else {
        match max_completed_index(es, ps) {
            Some(m) => match episode_with_index(es, m + 1, 0) {
                Some(j) => NextEpisode::Next { episode: j as usize },
                None => NextEpisode::AllWatched,
            },
            None => NextEpisode::First,
        }
    }
}

fn first_in_progress_exec(ps: &Vec<ProgressMark>) -> (r: Option<usize>)
    ensures
        r matches Some(k) ==> first_in_progress(mark_views(ps@), 0) == Some(k as int) && k < ps.len(),
        r is None ==> first_in_progress(mark_views(ps@), 0) is None,
{
    let ghost pv = mark_views(ps@);
    let mut i: usize = 0;
    while i < ps.len()
        invariant
            i <= ps.len(),
            pv == mark_views(ps@),
            first_in_progress(pv, 0) == first_in_progress(pv, i as int),
        decreases ps.len() - i,
    {
        assert(pv[i as int] == ps@[i as int]@);
        if !ps[i].completed && ps[i].started {
            return Some(i);
        }
        i += 1;
    }
    None
}

pub(crate) fn episode_with_id_exec(es: &Vec<Episode>, id: &Vec<char>) -> (r: Option<usize>)
    ensures
        r matches Some(j) ==> episode_with_id(episode_views(es@), id@, 0) == Some(j as int) && j < es.len(),
        r is None ==> episode_with_id(episode_views(es@), id@, 0) is None,
{
    let ghost ev = episode_views(es@);
    let mut i: usize = 0;
    while i < es.len()
        invariant
            i <= es.len(),
            ev == episode_views(es@),
            episode_with_id(ev, id@, 0) == episode_with_id(ev, id@, i as int),
        decreases es.len() - i,
    {
        assert(ev[i as int] == es@[i as int]@);
        if str_is(es[i].id.as_str(), id) {
            return Some(i);
        }
        i += 1;
    }
    None
}

pub(crate) fn episode_with_index_exec(es: &Vec<Episode>, x: usize) -> (r: Option<usize>)
    ensures
        r matches Some(j) ==> episode_with_index(episode_views(es@), x as int, 0) == Some(j as int) && j < es.len(),
        r is None ==> episode_with_index(episode_views(es@), x as int, 0) is None,
{
    let ghost ev = episode_views(es@);
    let mut i: usize = 0;
    while i < es.len()
        invariant
            i <= es.len(),
            ev == episode_views(es@),
            episode_with_index(ev, x as int, 0) == episode_with_index(ev, x as int, i as int),
        decreases es.len() - i,
    {
        assert(ev[i as int] == es@[i as int]@);
        if es[i].index == x {
            return Some(i);
        }
        i += 1;
    }
    None
}

fn completed_somewhere_exec(ps: &Vec<ProgressMark>, id: &Vec<char>) -> (r: bool)
    ensures
        r == completed_somewhere(mark_views(ps@), id@),
{
    let ghost pv = mark_views(ps@);
    let mut k: usize = 0;
    while k < ps.len()
        invariant
            k <= ps.len(),
            pv == mark_views(ps@),
            forall|j: int| 0 <= j < k ==> !(pv[j].episode_id == id@ && pv[j].completed),
        decreases ps.len() - k,
    {
        assert(pv[k as int] == ps@[k as int]@);
        if ps[k].completed && str_is(ps[k].episode_id.as_str(), id) {
            return true;
        }
        k += 1;
    }
    false
}

pub(crate) proof fn lemma_no_index_beyond(es: Seq<EpisodeView>, x: int, i: int)
    requires
        x > usize::MAX,
    ensures
        episode_with_index(es, x, i) is None,
    decreases es.len() - i,
{
    if 0 <= i < es.len() {
        lemma_no_index_beyond(es, x, i + 1);
    }
}

/// The largest sort index of a completed episode.
fn max_completed_index_exec(es: &Vec<Episode>, ps: &Vec<ProgressMark>) -> (r: Option<usize>)
    ensures
        r == max_completed_index(episode_views(es@), mark_views(ps@)),
{
    let ghost ev = episode_views(es@);
    let ghost pv = mark_views(ps@);
    let mut best: Option<usize> = None;
    let mut n: usize = 0;
    while n < es.len()
        invariant
            n <= es.len(),
            ev == episode_views(es@),
            pv == mark_views(ps@),
            best == max_completed_upto(ev, pv, n as int),
        decreases es.len() - n,
    {
        assert(ev[n as int] == es@[n as int]@);
        let id = str_chars(es[n].id.as_str());
        if completed_somewhere_exec(ps, &id) {
            let x = es[n].index;
            best = match best {
                Some(m) => Some(if m < x { x } else { m }),
                None => Some(x),
            };
        }
        n += 1;
    }
    best
}

proof fn lemma_first_in_progress_at(ps: Seq<ProgressView>, i: int, k: int)
    requires
        0 <= i <= k < ps.len(),
        ps[k].started && !ps[k].completed,
        forall|m: int| i <= m < k ==> !(#[trigger] ps[m].started && !ps[m].completed),
    ensures
        first_in_progress(ps, i) == Some(k),
    decreases k - i,
{
    if i < k {
        lemma_first_in_progress_at(ps, i + 1, k);
    }
}

proof fn lemma_first_episode_with_id(es: Seq<EpisodeView>, id: Seq<char>, i: int, j: int)
    requires
        0 <= i <= j < es.len(),
        es[j].id == id,
        forall|m: int| i <= m < j ==> (#[trigger] es[m]).id != id,
    ensures
        episode_with_id(es, id, i) == Some(j),
    decreases j - i,
{
    if i < j {
        lemma_first_episode_with_id(es, id, i + 1, j);
    }
}

/// An episode started and not finished is resumed before anything else:
/// when the first record (most recent first) that is started and not
/// completed names an episode of the series, the choice is to resume that
/// episode (its first with that id) from that record, whatever other
/// records say was completed.
pub proof fn lemma_resume_comes_first(es: Seq<EpisodeView>, ps: Seq<ProgressView>, k: int, j: int)
    requires
        0 <= k < ps.len(),
        ps[k].started,
        !ps[k].completed,
        forall|m: int| 0 <= m < k ==> !(#[trigger] ps[m].started && !ps[m].completed),
        0 <= j < es.len(),
        es[j].id == ps[k].episode_id,
        forall|m: int| 0 <= m < j ==> (#[trigger] es[m]).id != ps[k].episode_id,
    ensures
        next_episode_spec(es, ps) == (NextEpisode::Resume { episode: j as usize, progress: k as usize }),
{
    lemma_first_in_progress_at(ps, 0, k);
    lemma_first_episode_with_id(es, ps[k].episode_id, 0, j);
}

proof fn lemma_episode_with_id_at(es: Seq<EpisodeView>, i: int, j: int)
    requires
        forall|a: int, b: int| 0 <= a < b < es.len() ==> #[trigger] es[a].id != #[trigger] es[b].id,
        0 <= i <= j < es.len(),
    ensures
        episode_with_id(es, es[j].id, i) == Some(j),
    decreases j - i,
{
    if i < j {
        assert(es[i].id != es[j].id);
        lemma_episode_with_id_at(es, i + 1, j);
    }
}

proof fn lemma_episode_with_index_at(es: Seq<EpisodeView>, x: int, i: int)
    requires
        forall|a: int| 0 <= a < es.len() ==> #[trigger] es[a].index == a,
        0 <= i <= x,
    ensures
        episode_with_index(es, x, i) == (if x < es.len() { Some(x) } else { None::<int> }),
    decreases es.len() - i,
{
    if i < es.len() {
        assert(es[i].index == i);
        if i < x {
            lemma_episode_with_index_at(es, x, i + 1);
        }
    }
}

proof fn lemma_max_completed_one(es: Seq<EpisodeView>, j: int, p: ProgressView, n: int)
    requires
        forall|a: int| 0 <= a < es.len() ==> #[trigger] es[a].index == a,
        forall|a: int, b: int| 0 <= a < b < es.len() ==> #[trigger] es[a].id != #[trigger] es[b].id,
        0 <= j < es.len(),
        p.episode_id == es[j].id,
        0 <= n <= es.len(),
    ensures
        max_completed_upto(es, seq![p], n) == (if p.completed && j < n { Some(j as usize) } else { None::<usize> }),
    decreases n,
{
    if n > 0 {
        lemma_max_completed_one(es, j, p, n - 1);
        let m = n - 1;
        if p.completed && m == j {
            assert(seq![p][0].episode_id == es[m].id);
            assert(completed_somewhere(seq![p], es[m].id));
        } else {
            assert(!completed_somewhere(seq![p], es[m].id)) by {
                if completed_somewhere(seq![p], es[m].id) {
                    let k = choose|k: int| 0 <= k < 1 && seq![p][k].episode_id == es[m].id && seq![p][k].completed;
                    assert(k == 0);
                    if m < j {
                        assert(es[m].id != es[j].id);
                    } else if m > j {
                        assert(es[j].id != es[m].id);
                    }
                }
            }
        }
    }
}

/// What to play next in a series whose episodes have distinct ids and run
/// in index order: with no record, the first episode; after one episode's
/// record, the episode after it when the record is completed (all watched
/// after the last), that episode again when it is started and not
/// completed, and the first episode when it was never started.
pub proof fn lemma_next_after_one_record(es: Seq<EpisodeView>, j: int, p: ProgressView)
    requires
        forall|a: int| 0 <= a < es.len() ==> #[trigger] es[a].index == a,
        forall|a: int, b: int| 0 <= a < b < es.len() ==> #[trigger] es[a].id != #[trigger] es[b].id,
        0 <= j < es.len(),
        p.episode_id == es[j].id,
    ensures
        next_episode_spec(es, Seq::empty()) == NextEpisode::First,
        p.completed ==> next_episode_spec(es, seq![p]) == (if j + 1 < es.len() {
            NextEpisode::Next { episode: (j + 1) as usize }
        } else {
            NextEpisode::AllWatched
        }),
        !p.completed && p.started ==> next_episode_spec(es, seq![p]) == (NextEpisode::Resume {
            episode: j as usize,
            progress: 0,
        }),
        !p.completed && !p.started ==> next_episode_spec(es, seq![p]) == NextEpisode::First,
{
    let empty: Seq<ProgressView> = Seq::empty();
    assert(first_in_progress(empty, 0) is None);
    assert forall|n: int| 0 <= n <= es.len() implies (max_completed_upto(es, empty, n) is None) by {
        lemma_max_completed_none(es, n);
    }
    let ps = seq![p];
    assert(first_in_progress(ps, 1) is None);
    lemma_max_completed_one(es, j, p, es.len() as int);
    lemma_episode_with_id_at(es, 0, j);
    lemma_episode_with_index_at(es, j + 1, 0);
    assert(es[j].index == j);
    assert((j as usize) as int == j);
    if j + 1 < es.len() {
        assert(es[j + 1].index == j + 1);
    }
    if p.completed {
        assert(first_in_progress(ps, 0) is None);
        assert(max_completed_index(es, ps) == Some(j as usize));
        assert(episode_with_index(es, (j as usize) + 1, 0) == (if j + 1 < es.len() { Some(j + 1) } else { None::<int> }));
    }
}

proof fn lemma_max_completed_none(es: Seq<EpisodeView>, n: int)
    requires
        0 <= n <= es.len(),
    ensures
        max_completed_upto(es, Seq::<ProgressView>::empty(), n) is None,
    decreases n,
{
    if n > 0 {
        lemma_max_completed_none(es, n - 1);
    }
}


/// Returns the "smart next" episode for a series:
/// - If watching one (progress > 0, not completed), resume it
/// - If last watched is completed, return the next one
/// - If nothing watched, return episode 0
pub fn choose_next_episode(episodes: &Vec<Episode>, progress: &Vec<ProgressMark>) -> (r: NextEpisode)
    ensures
        r == next_episode_spec(episode_views(episodes@), mark_views(progress@)),
{
    if episodes.len() == 0 {
        return NextEpisode::NoEpisodes;
    }
    let ghost pv = mark_views(progress@);
    match first_in_progress_exec(progress) {
        Some(k) => {
            assert(pv[k as int] == progress@[k as int]@);
            let id = str_chars(progress[k].episode_id.as_str());
            match episode_with_id_exec(episodes, &id) {
                Some(j) => {
                    return NextEpisode::Resume { episode: j, progress: k };
                },
                None => {},
            }
        },
        None => {},
    }
    match max_completed_index_exec(episodes, progress) {
        Some(m) => if m < usize::MAX {
            match episode_with_index_exec(episodes, m + 1) {
                Some(j) => NextEpisode::Next { episode: j },
                None => NextEpisode::AllWatched,
            }
        } else {
            proof { lemma_no_index_beyond(episode_views(episodes@), m + 1, 0); }
            NextEpisode::AllWatched
        },
        None => NextEpisode::First,
    }
}

} // verus!
