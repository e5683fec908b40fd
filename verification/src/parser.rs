//! The top-level replay parser: framing, CRC policy, header, body, network.
//!
//! A replay is two framed sections — header and body — each preceded by its
//! byte count and CRC. `Parser::parse` drives the whole decode and applies
//! the configured CRC and network policies; `ParserBuilder` is the public
//! entry point. Every byte-level step is specified against spec-level
//! decoders over the byte sequence, so the contract of `parse` pins down
//! exactly which inputs succeed and what value they produce.

use vstd::prelude::*;

use crate::core_parser::{le_i32_at, le_u32_at, short_read_err, spec_count_at, spec_count_errpos,
    spec_count_err, spec_text_at, spec_text_err, spec_text_errpos, spec_text_list_at,
    spec_text_list_fail, CoreParser};
use crate::crc::{calc_crc, crc32};
use crate::errors::{NetworkError, ParseError};
use crate::header::{header_err_matches, header_view, parse_header, spec_header_at, HeaderModel};
use crate::models::{CacheProp, ClassIndex, ClassNetCache, DebugInfo, Header, KeyFrame,
    NetworkFrames, Replay, TickMark};
use crate::network;

verus! {

/// When the parser verifies a section's checksum.
#[derive(Debug, Clone, Copy, PartialEq, Eq)]
pub enum CrcCheck {
    /// Verify every section before trusting it; a mismatch is an error even
    /// when structured decoding succeeded.
    Always,
    /// Never spend time on checksums.
    Never,
    /// Verify only when structured decoding of a section failed, to tell a
    /// corrupt replay from a malformed one. This is the default.
    OnError,
}

/// How the parser treats the network stream, the largest and most volatile
/// section.
#[derive(Debug, Clone, Copy, PartialEq, Eq)]
pub enum NetworkParse {
    /// Decode it; a failure fails the parse.
    Always,
    /// Skip it; the output carries no frames.
    Never,
    /// Try to decode it, and on failure keep the rest of the replay with no
    /// frames. This is the default.
    IgnoreOnError,
}

/// The spec-level value of one tick mark.
#[verifier::ext_equal]
pub struct TickMarkModel {
    pub description: Seq<char>,
    pub frame: int,
}

/// The spec-level value of one debug line.
#[verifier::ext_equal]
pub struct DebugInfoModel {
    pub frame: int,
    pub user: Seq<char>,
    pub text: Seq<char>,
}

/// The spec-level value of one class index entry.
#[verifier::ext_equal]
pub struct ClassIndexModel {
    pub class: Seq<char>,
    pub index: int,
}

/// The spec-level value of one class-net-cache entry.
#[verifier::ext_equal]
pub struct ClassNetCacheModel {
    pub object_ind: int,
    pub parent_id: int,
    pub cache_id: int,
    pub properties: Seq<CacheProp>,
}

/// The spec-level value of the body.
#[verifier::ext_equal]
pub struct BodyModel {
    pub levels: Seq<Seq<char>>,
    pub keyframes: Seq<KeyFrame>,
    pub network_data: Seq<u8>,
    pub debug_info: Seq<DebugInfoModel>,
    pub tick_marks: Seq<TickMarkModel>,
    pub packages: Seq<Seq<char>>,
    pub objects: Seq<Seq<char>>,
    pub names: Seq<Seq<char>>,
    pub class_indices: Seq<ClassIndexModel>,
    pub net_cache: Seq<ClassNetCacheModel>,
}

/// The spec-level value of a sequence of tick marks.
pub open spec fn ticks_view(s: Seq<TickMark>) -> Seq<TickMarkModel> {
    Seq::new(s.len(), |i: int| TickMarkModel { description: s[i].description@, frame: s[i].frame as int })
}

/// The spec-level value of a sequence of debug lines.
pub open spec fn debugs_view(s: Seq<DebugInfo>) -> Seq<DebugInfoModel> {
    Seq::new(
        s.len(),
        |i: int| DebugInfoModel { frame: s[i].frame as int, user: s[i].user@, text: s[i].text@ },
    )
}

/// The spec-level value of a sequence of class index entries.
pub open spec fn class_indices_view(s: Seq<ClassIndex>) -> Seq<ClassIndexModel> {
    Seq::new(s.len(), |i: int| ClassIndexModel { class: s[i].class@, index: s[i].index as int })
}

/// The spec-level value of a sequence of class-net-cache entries.
pub open spec fn net_cache_view(s: Seq<ClassNetCache>) -> Seq<ClassNetCacheModel> {
    Seq::new(
        s.len(),
        |i: int| ClassNetCacheModel {
            object_ind: s[i].object_ind as int,
            parent_id: s[i].parent_id as int,
            cache_id: s[i].cache_id as int,
            properties: s[i].properties@,
        },
    )
}

/// One keyframe decoded at `pos`: twelve bytes, time bits then frame then
/// position.
pub open spec fn spec_keyframe_at(data: Seq<u8>, pos: int) -> Option<(KeyFrame, int)> {
    if pos + 12 > data.len() {
        None
    } else {
        Some(
            (
                KeyFrame {
                    time_bits: le_u32_at(data, pos) as u32,
                    frame: le_i32_at(data, pos + 4) as i32,
                    position: le_i32_at(data, pos + 8) as i32,
                },
                pos + 12,
            ),
        )
    }
}

/// `n` keyframes decoded one after another.
pub open spec fn spec_keyframes(data: Seq<u8>, pos: int, n: nat) -> Option<(Seq<KeyFrame>, int)>
    decreases n,
{
    if n == 0 {
        Some((Seq::empty(), pos))
    } else {
        match spec_keyframe_at(data, pos) {
            Some((v, p1)) => match spec_keyframes(data, p1, (n - 1) as nat) {
                Some((vs, p2)) => Some((seq![v] + vs, p2)),
                None => None,
            },
            None => None,
        }
    }
}

/// A counted keyframe list decoded at `pos`.
pub open spec fn spec_keyframe_list(data: Seq<u8>, pos: int) -> Option<(Seq<KeyFrame>, int)> {
    match spec_count_at(data, pos, 12) {
        Some((n, p)) => spec_keyframes(data, p, n as nat),
        None => None,
    }
}

/// The error and cursor position of a failed counted keyframe list; after
/// a successful count the fixed-size records cannot fail, so only the
/// count can.
pub open spec fn spec_keyframe_list_fail(data: Seq<u8>, pos: int) -> (ParseError, int) {
    (spec_count_err(data, pos, 12), spec_count_errpos(data, pos))
}

/// One tick mark decoded at `pos`: a string then a frame number.
pub open spec fn spec_tickmark_at(data: Seq<u8>, pos: int) -> Option<(TickMarkModel, int)> {
    match spec_text_at(data, pos) {
        Some((d, p1)) => {
            if p1 + 4 > data.len() {
                None
            } else {
                Some((TickMarkModel { description: d, frame: le_i32_at(data, p1) }, p1 + 4))
            }
        },
        None => None,
    }
}

/// `n` tick marks decoded one after another.
pub open spec fn spec_tickmarks(data: Seq<u8>, pos: int, n: nat) -> Option<
    (Seq<TickMarkModel>, int),
>
    decreases n,
{
    if n == 0 {
        Some((Seq::empty(), pos))
    } else {
        match spec_tickmark_at(data, pos) {
            Some((v, p1)) => match spec_tickmarks(data, p1, (n - 1) as nat) {
                Some((vs, p2)) => Some((seq![v] + vs, p2)),
                None => None,
            },
            None => None,
        }
    }
}

/// A counted tick mark list decoded at `pos`.
pub open spec fn spec_tickmark_list(data: Seq<u8>, pos: int) -> Option<(Seq<TickMarkModel>, int)> {
    match spec_count_at(data, pos, 8) {
        Some((n, p)) => spec_tickmarks(data, p, n as nat),
        None => None,
    }
}

/// The error and cursor position of a failed tick mark at `pos`.
pub open spec fn spec_tickmark_fail_at(data: Seq<u8>, pos: int) -> (ParseError, int) {
    match spec_text_at(data, pos) {
        None => (spec_text_err(data, pos), spec_text_errpos(data, pos)),
        Some((_, p1)) => (short_read_err(data, p1, 4), p1),
    }
}

/// The error and cursor position of the first failing tick mark among `n`.
pub open spec fn spec_tickmarks_fail(data: Seq<u8>, pos: int, n: nat) -> (ParseError, int)
    decreases n,
{
    if n == 0 {
        (short_read_err(data, pos, 4), pos)
    } else {
        match spec_tickmark_at(data, pos) {
            None => spec_tickmark_fail_at(data, pos),
            Some((_, p1)) => spec_tickmarks_fail(data, p1, (n - 1) as nat),
        }
    }
}

/// The error and cursor position of a failed counted tick mark list.
pub open spec fn spec_tickmark_list_fail(data: Seq<u8>, pos: int) -> (ParseError, int) {
    match spec_count_at(data, pos, 8) {
        None => (spec_count_err(data, pos, 8), spec_count_errpos(data, pos)),
        Some((n, p)) => spec_tickmarks_fail(data, p, n as nat),
    }
}

/// One debug line decoded at `pos`: a frame number then two strings.
pub open spec fn spec_debuginfo_at(data: Seq<u8>, pos: int) -> Option<(DebugInfoModel, int)> {
    if pos + 4 > data.len() {
        None
    } else {
        let frame = le_i32_at(data, pos);
        match spec_text_at(data, pos + 4) {
            Some((user, p1)) => match spec_text_at(data, p1) {
                Some((text, p2)) => Some((DebugInfoModel { frame, user, text }, p2)),
                None => None,
            },
            None => None,
        }
    }
}

/// `n` debug lines decoded one after another.
pub open spec fn spec_debuginfos(data: Seq<u8>, pos: int, n: nat) -> Option<
    (Seq<DebugInfoModel>, int),
>
    decreases n,
{
    if n == 0 {
        Some((Seq::empty(), pos))
    } else {
        match spec_debuginfo_at(data, pos) {
            Some((v, p1)) => match spec_debuginfos(data, p1, (n - 1) as nat) {
                Some((vs, p2)) => Some((seq![v] + vs, p2)),
                None => None,
            },
            None => None,
        }
    }
}

/// A counted debug line list decoded at `pos`.
pub open spec fn spec_debuginfo_list(data: Seq<u8>, pos: int) -> Option<
    (Seq<DebugInfoModel>, int),
> {
    match spec_count_at(data, pos, 12) {
        Some((n, p)) => spec_debuginfos(data, p, n as nat),
        None => None,
    }
}

/// The error and cursor position of a failed debug line at `pos`.
pub open spec fn spec_debuginfo_fail_at(data: Seq<u8>, pos: int) -> (ParseError, int) {
    if pos + 4 > data.len() {
        (short_read_err(data, pos, 4), pos)
    } else {
        match spec_text_at(data, pos + 4) {
            None => (spec_text_err(data, pos + 4), spec_text_errpos(data, pos + 4)),
            Some((_, p1)) => (spec_text_err(data, p1), spec_text_errpos(data, p1)),
        }
    }
}

/// The error and cursor position of the first failing debug line among `n`.
pub open spec fn spec_debuginfos_fail(data: Seq<u8>, pos: int, n: nat) -> (ParseError, int)
    decreases n,
{
    if n == 0 {
        (short_read_err(data, pos, 4), pos)
    } else {
        match spec_debuginfo_at(data, pos) {
            None => spec_debuginfo_fail_at(data, pos),
            Some((_, p1)) => spec_debuginfos_fail(data, p1, (n - 1) as nat),
        }
    }
}

/// The error and cursor position of a failed counted debug line list.
pub open spec fn spec_debuginfo_list_fail(data: Seq<u8>, pos: int) -> (ParseError, int) {
    match spec_count_at(data, pos, 12) {
        None => (spec_count_err(data, pos, 12), spec_count_errpos(data, pos)),
        Some((n, p)) => spec_debuginfos_fail(data, p, n as nat),
    }
}

/// One class index entry decoded at `pos`: a string then an index.
pub open spec fn spec_classindex_at(data: Seq<u8>, pos: int) -> Option<(ClassIndexModel, int)> {
    match spec_text_at(data, pos) {
        Some((class, p1)) => {
            if p1 + 4 > data.len() {
                None
            } else {
                Some((ClassIndexModel { class, index: le_i32_at(data, p1) }, p1 + 4))
            }
        },
        None => None,
    }
}

/// `n` class index entries decoded one after another.
pub open spec fn spec_classindices(data: Seq<u8>, pos: int, n: nat) -> Option<
    (Seq<ClassIndexModel>, int),
>
    decreases n,
{
    if n == 0 {
        Some((Seq::empty(), pos))
    } else {
        match spec_classindex_at(data, pos) {
            Some((v, p1)) => match spec_classindices(data, p1, (n - 1) as nat) {
                Some((vs, p2)) => Some((seq![v] + vs, p2)),
                None => None,
            },
            None => None,
        }
    }
}

/// A counted class index list decoded at `pos`.
pub open spec fn spec_classindex_list(data: Seq<u8>, pos: int) -> Option<
    (Seq<ClassIndexModel>, int),
> {
    match spec_count_at(data, pos, 8) {
        Some((n, p)) => spec_classindices(data, p, n as nat),
        None => None,
    }
}

/// The error and cursor position of a failed class index entry at `pos`.
pub open spec fn spec_classindex_fail_at(data: Seq<u8>, pos: int) -> (ParseError, int) {
    match spec_text_at(data, pos) {
        None => (spec_text_err(data, pos), spec_text_errpos(data, pos)),
        Some((_, p1)) => (short_read_err(data, p1, 4), p1),
    }
}

/// The error and cursor position of the first failing class index entry.
pub open spec fn spec_classindices_fail(data: Seq<u8>, pos: int, n: nat) -> (ParseError, int)
    decreases n,
{
    if n == 0 {
        (short_read_err(data, pos, 4), pos)
    } else {
        match spec_classindex_at(data, pos) {
            None => spec_classindex_fail_at(data, pos),
            Some((_, p1)) => spec_classindices_fail(data, p1, (n - 1) as nat),
        }
    }
}

/// The error and cursor position of a failed counted class index list.
pub open spec fn spec_classindex_list_fail(data: Seq<u8>, pos: int) -> (ParseError, int) {
    match spec_count_at(data, pos, 8) {
        None => (spec_count_err(data, pos, 8), spec_count_errpos(data, pos)),
        Some((n, p)) => spec_classindices_fail(data, p, n as nat),
    }
}

/// One cache property decoded at `pos`: two 32-bit integers.
pub open spec fn spec_cacheprop_at(data: Seq<u8>, pos: int) -> Option<(CacheProp, int)> {
    if pos + 8 > data.len() {
        None
    } else {
        Some(
            (
                CacheProp {
                    object_ind: le_i32_at(data, pos) as i32,
                    stream_id: le_i32_at(data, pos + 4) as i32,
                },
                pos + 8,
            ),
        )
    }
}

/// `n` cache properties decoded one after another.
pub open spec fn spec_cacheprops(data: Seq<u8>, pos: int, n: nat) -> Option<(Seq<CacheProp>, int)>
    decreases n,
{
    if n == 0 {
        Some((Seq::empty(), pos))
    } else {
        match spec_cacheprop_at(data, pos) {
            Some((v, p1)) => match spec_cacheprops(data, p1, (n - 1) as nat) {
                Some((vs, p2)) => Some((seq![v] + vs, p2)),
                None => None,
            },
            None => None,
        }
    }
}

/// One class-net-cache entry decoded at `pos`: three 32-bit integers then a
/// counted property list.
pub open spec fn spec_classcache_at(data: Seq<u8>, pos: int) -> Option<(ClassNetCacheModel, int)> {
    if pos + 12 > data.len() {
        None
    } else {
        let object_ind = le_i32_at(data, pos);
        let parent_id = le_i32_at(data, pos + 4);
        let cache_id = le_i32_at(data, pos + 8);
        match spec_count_at(data, pos + 12, 8) {
            Some((n, p1)) => match spec_cacheprops(data, p1, n as nat) {
                Some((props, p2)) => Some(
                    (ClassNetCacheModel { object_ind, parent_id, cache_id, properties: props }, p2),
                ),
                None => None,
            },
            None => None,
        }
    }
}

/// The error and cursor position of a failed class-net-cache entry at
/// `pos`; after a successful nested count the fixed-size properties cannot
/// fail.
pub open spec fn spec_classcache_fail_at(data: Seq<u8>, pos: int) -> (ParseError, int) {
    if pos + 4 > data.len() {
        (short_read_err(data, pos, 4), pos)
    } else if pos + 8 > data.len() {
        (short_read_err(data, pos + 4, 4), pos + 4)
    } else if pos + 12 > data.len() {
        (short_read_err(data, pos + 8, 4), pos + 8)
    } else {
        (spec_count_err(data, pos + 12, 8), spec_count_errpos(data, pos + 12))
    }
}

/// The error and cursor position of the first failing class-net-cache
/// entry among `n`.
pub open spec fn spec_classcaches_fail(data: Seq<u8>, pos: int, n: nat) -> (ParseError, int)
    decreases n,
{
    if n == 0 {
        (short_read_err(data, pos, 4), pos)
    } else {
        match spec_classcache_at(data, pos) {
            None => spec_classcache_fail_at(data, pos),
            Some((_, p1)) => spec_classcaches_fail(data, p1, (n - 1) as nat),
        }
    }
}

/// The error and cursor position of a failed counted class-net-cache list.
pub open spec fn spec_classcache_list_fail(data: Seq<u8>, pos: int) -> (ParseError, int) {
    match spec_count_at(data, pos, 16) {
        None => (spec_count_err(data, pos, 16), spec_count_errpos(data, pos)),
        Some((n, p)) => spec_classcaches_fail(data, p, n as nat),
    }
}

/// `n` class-net-cache entries decoded one after another.
pub open spec fn spec_classcaches(data: Seq<u8>, pos: int, n: nat) -> Option<
    (Seq<ClassNetCacheModel>, int),
>
    decreases n,
{
    if n == 0 {
        Some((Seq::empty(), pos))
    } else {
        match spec_classcache_at(data, pos) {
            Some((v, p1)) => match spec_classcaches(data, p1, (n - 1) as nat) {
                Some((vs, p2)) => Some((seq![v] + vs, p2)),
                None => None,
            },
            None => None,
        }
    }
}

/// A counted class-net-cache list decoded at `pos`.
pub open spec fn spec_classcache_list(data: Seq<u8>, pos: int) -> Option<
    (Seq<ClassNetCacheModel>, int),
> {
    match spec_count_at(data, pos, 16) {
        Some((n, p)) => spec_classcaches(data, p, n as nat),
        None => None,
    }
}

/// The whole body decoded at `pos`, in file order.
pub open spec fn spec_body_at(data: Seq<u8>, pos: int) -> Option<(BodyModel, int)> {
    match spec_text_list_at(data, pos) {
        None => None,
        Some((levels, p1)) => match spec_keyframe_list(data, p1) {
            None => None,
            Some((keyframes, p2)) => {
                if p2 + 4 > data.len() {
                    None
                } else {
                    let ns = le_i32_at(data, p2);
                    if ns < 0 || p2 + 4 + ns > data.len() {
                        None
                    } else {
                        let network_data = data.subrange(p2 + 4, p2 + 4 + ns);
                        match spec_debuginfo_list(data, p2 + 4 + ns) {
                            None => None,
                            Some((debug_info, p3)) => match spec_tickmark_list(data, p3) {
                                None => None,
                                Some((tick_marks, p4)) => match spec_text_list_at(data, p4) {
                                    None => None,
                                    Some((packages, p5)) => match spec_text_list_at(data, p5) {
                                        None => None,
                                        Some((objects, p6)) => match spec_text_list_at(data, p6) {
                                            None => None,
                                            Some((names, p7)) => match spec_classindex_list(
                                                data,
                                                p7,
                                            ) {
                                                None => None,
                                                Some((class_indices, p8)) => match spec_classcache_list(
                                                    data,
                                                    p8,
                                                ) {
                                                    None => None,
                                                    Some((net_cache, p9)) => Some(
                                                        (
                                                            BodyModel {
                                                                levels,
                                                                keyframes,
                                                                network_data,
                                                                debug_info,
                                                                tick_marks,
                                                                packages,
                                                                objects,
                                                                names,
                                                                class_indices,
                                                                net_cache,
                                                            },
                                                            p9,
                                                        ),
                                                    ),
                                                },
                                            },
                                        },
                                    },
                                },
                            },
                        }
                    }
                }
            },
        },
    }
}

/// The failing stage of a body decode: its section label, the cursor
/// position where decoding stopped, and the underlying error; meaningful
/// only when the body decode fails.
pub open spec fn spec_body_fail(data: Seq<u8>, pos: int) -> (Seq<char>, int, ParseError) {
    match spec_text_list_at(data, pos) {
        None => {
            let f = spec_text_list_fail(data, pos);
            ("levels"@, f.1, f.0)
        },
        Some((_, p1)) => match spec_keyframe_list(data, p1) {
            None => {
                let f = spec_keyframe_list_fail(data, p1);
                ("keyframes"@, f.1, f.0)
            },
            Some((_, p2)) => {
                if p2 + 4 > data.len() {
                    ("network size"@, p2, short_read_err(data, p2, 4))
                } else {
                    let ns = le_i32_at(data, p2);
                    if ns < 0 {
                        (
                            "network data"@,
                            p2 + 4,
                            ParseError::InsufficientBytes {
                                expected: usize::MAX,
                                available: (data.len() - (p2 + 4)) as usize,
                                offset: (p2 + 4) as usize,
                            },
                        )
                    } else if p2 + 4 + ns > data.len() {
                        ("network data"@, p2 + 4, short_read_err(data, p2 + 4, ns))
                    } else {
                        let p3 = p2 + 4 + ns;
                        match spec_debuginfo_list(data, p3) {
                            None => {
                                let f = spec_debuginfo_list_fail(data, p3);
                                ("debug info"@, f.1, f.0)
                            },
                            Some((_, p4)) => match spec_tickmark_list(data, p4) {
                                None => {
                                    let f = spec_tickmark_list_fail(data, p4);
                                    ("tickmarks"@, f.1, f.0)
                                },
                                Some((_, p5)) => match spec_text_list_at(data, p5) {
                                    None => {
                                        let f = spec_text_list_fail(data, p5);
                                        ("packages"@, f.1, f.0)
                                    },
                                    Some((_, p6)) => match spec_text_list_at(data, p6) {
                                        None => {
                                            let f = spec_text_list_fail(data, p6);
                                            ("objects"@, f.1, f.0)
                                        },
                                        Some((_, p7)) => match spec_text_list_at(data, p7) {
                                            None => {
                                                let f = spec_text_list_fail(data, p7);
                                                ("names"@, f.1, f.0)
                                            },
                                            Some((_, p8)) => match spec_classindex_list(
                                                data,
                                                p8,
                                            ) {
                                                None => {
                                                    let f = spec_classindex_list_fail(data, p8);
                                                    ("class index"@, f.1, f.0)
                                                },
                                                Some((_, p9)) => {
                                                    let f = spec_classcache_list_fail(data, p9);
                                                    ("net cache"@, f.1, f.0)
                                                },
                                            },
                                        },
                                    },
                                },
                            },
                        }
                    }
                }
            },
        },
    }
}

/// The intermediate decoded body.
#[derive(Debug, PartialEq)]
pub struct ReplayBody<'a> {
    pub levels: Vec<String>,
    pub keyframes: Vec<KeyFrame>,
    pub debug_info: Vec<DebugInfo>,
    pub tick_marks: Vec<TickMark>,
    pub packages: Vec<String>,
    pub objects: Vec<String>,
    pub names: Vec<String>,
    pub class_indices: Vec<ClassIndex>,
    pub net_cache: Vec<ClassNetCache>,
    pub network_data: &'a [u8],
}

impl<'a> ReplayBody<'a> {
    /// The spec-level value of this body.
    pub open spec fn view_model(self) -> BodyModel {
        BodyModel {
            levels: self.levels.deep_view(),
            keyframes: self.keyframes@,
            network_data: self.network_data@,
            debug_info: debugs_view(self.debug_info@),
            tick_marks: ticks_view(self.tick_marks@),
            packages: self.packages.deep_view(),
            objects: self.objects.deep_view(),
            names: self.names.deep_view(),
            class_indices: class_indices_view(self.class_indices@),
            net_cache: net_cache_view(self.net_cache@),
        }
    }
}

/// Holds the cursor and the two policies while a replay is decoded.
#[derive(Debug, Clone, PartialEq)]
pub struct Parser<'a> {
    pub core: CoreParser<'a>,
    pub crc_check: CrcCheck,
    pub network_parse: NetworkParse,
}


/// Whether `e` is the section-wrapped failure of a body decode at `pos`.
pub open spec fn body_section_matches(data: Seq<u8>, pos: int, e: ParseError) -> bool {
    &&& e matches ParseError::Section(l, o, c)
    &&& l@ == spec_body_fail(data, pos).0
    &&& o as int == spec_body_fail(data, pos).1
    &&& *c == spec_body_fail(data, pos).2
}

/// Whether `e` is a header decode failure at `pos`, whatever cursor it
/// stopped at.
pub open spec fn header_fail_matches(data: Seq<u8>, pos: int, e: ParseError) -> bool {
    exists|c: int| header_err_matches(data, pos, e, c)
}

/// What a whole-replay parse returns on every input whose byte structure
/// fails to decode, and on every checksum failure, for each CRC policy;
/// `true` when the byte structure and the policy's checksums all pass (the
/// success side is stated separately over `spec_replay_parts`).
pub open spec fn parse_err_post(
    data: Seq<u8>,
    pos: int,
    ck: CrcCheck,
    r: Result<Replay, ParseError>,
) -> bool {
    if pos + 4 > data.len() {
        r matches Err(e) && (e matches ParseError::Section(l, o, c) && l@ == "header size"@ && o
            as int == pos && *c == short_read_err(data, pos, 4))
    } else if pos + 8 > data.len() {
        r matches Err(e) && (e matches ParseError::Section(l, o, c) && l@ == "header crc"@ && o
            as int == pos + 4 && *c == short_read_err(data, pos + 4, 4))
    } else {
        let hs = le_i32_at(data, pos);
        let hcrc = le_u32_at(data, pos + 4);
        if hs < 0 {
            r matches Err(e) && (e matches ParseError::Section(l, o, c) && l@ == "header data"@
                && o as int == pos + 8 && *c == ParseError::InsufficientBytes {
                expected: usize::MAX,
                available: (data.len() - (pos + 8)) as usize,
                offset: (pos + 8) as usize,
            })
        } else if pos + 8 + hs > data.len() {
            r matches Err(e) && (e matches ParseError::Section(l, o, c) && l@ == "header data"@
                && o as int == pos + 8 && *c == short_read_err(data, pos + 8, hs))
        } else {
            let hb = data.subrange(pos + 8, pos + 8 + hs);
            let hmis = crc32(hb) != hcrc;
            match spec_header_at(data, pos + 8) {
                None => match ck {
                    CrcCheck::Always => if hmis {
                        r matches Err(e) && e == ParseError::CrcMismatch(hcrc as u32, crc32(hb))
                    } else {
                        r matches Err(e) && header_fail_matches(data, pos + 8, e)
                    },
                    CrcCheck::Never => r matches Err(e) && header_fail_matches(data, pos + 8, e),
                    CrcCheck::OnError => r matches Err(e) && if hmis {
                        e matches ParseError::CorruptReplay(sec, cause) && sec@ == "header"@
                            && header_fail_matches(data, pos + 8, *cause)
                    } else {
                        header_fail_matches(data, pos + 8, e)
                    },
                },
                Some((h, p)) => {
                    if ck == CrcCheck::Always && hmis {
                        r matches Err(e) && e == ParseError::CrcMismatch(hcrc as u32, crc32(hb))
                    } else if p + 4 > data.len() {
                        r matches Err(e) && (e matches ParseError::Section(l, o, c) && l@
                            == "content size"@ && o as int == p && *c == short_read_err(
                            data,
                            p,
                            4,
                        ))
                    } else if p + 8 > data.len() {
                        r matches Err(e) && (e matches ParseError::Section(l, o, c) && l@
                            == "content crc"@ && o as int == p + 4 && *c == short_read_err(
                            data,
                            p + 4,
                            4,
                        ))
                    } else {
                        let cs = le_i32_at(data, p);
                        let ccrc = le_u32_at(data, p + 4);
                        if cs < 0 {
                            r matches Err(e) && (e matches ParseError::Section(l, o, c) && l@
                                == "content data"@ && o as int == p + 8 && *c
                                == ParseError::InsufficientBytes {
                                expected: usize::MAX,
                                available: (data.len() - (p + 8)) as usize,
                                offset: (p + 8) as usize,
                            })
                        } else if p + 8 + cs > data.len() {
                            r matches Err(e) && (e matches ParseError::Section(l, o, c) && l@
                                == "content data"@ && o as int == p + 8 && *c == short_read_err(
                                data,
                                p + 8,
                                cs,
                            ))
                        } else {
                            let cb = data.subrange(p + 8, p + 8 + cs);
                            let bmis = crc32(cb) != ccrc;
                            match spec_body_at(data, p + 8) {
                                None => match ck {
                                    CrcCheck::Always => if bmis {
                                        r matches Err(e) && e == ParseError::CrcMismatch(
                                            ccrc as u32,
                                            crc32(cb),
                                        )
                                    } else {
                                        r matches Err(e) && body_section_matches(data, p + 8, e)
                                    },
                                    CrcCheck::Never => r matches Err(e) && body_section_matches(
                                        data,
                                        p + 8,
                                        e,
                                    ),
                                    CrcCheck::OnError => r matches Err(e) && if bmis {
                                        e matches ParseError::CorruptReplay(sec, cause) && sec@
                                            == "body"@ && body_section_matches(data, p + 8, *cause)
                                    } else {
                                        body_section_matches(data, p + 8, e)
                                    },
                                },
                                Some(_) => true,
                            }
                        }
                    }
                },
            }
        }
    }
}

/// Everything the byte structure of a replay determines: framing words, the
/// two section byte ranges, and the decoded header and body.
#[verifier::ext_equal]
pub struct ReplayParts {
    pub header_size: int,
    pub header_crc: int,
    pub header_bytes: Seq<u8>,
    pub header: HeaderModel,
    pub header_end: int,
    pub content_size: int,
    pub content_crc: int,
    pub content_bytes: Seq<u8>,
    pub body: BodyModel,
    pub body_end: int,
}

/// The byte structure of a replay decoded at `pos`: `None` exactly when
/// structured decoding fails, whatever the CRC policy.
pub open spec fn spec_replay_parts(data: Seq<u8>, pos: int) -> Option<ReplayParts> {
    if pos + 8 > data.len() {
        None
    } else {
        let hs = le_i32_at(data, pos);
        let hcrc = le_u32_at(data, pos + 4);
        if hs < 0 || pos + 8 + hs > data.len() {
            None
        } else {
            match spec_header_at(data, pos + 8) {
                None => None,
                Some((h, p)) => {
                    if p + 8 > data.len() {
                        None
                    } else {
                        let cs = le_i32_at(data, p);
                        let ccrc = le_u32_at(data, p + 4);
                        if cs < 0 || p + 8 + cs > data.len() {
                            None
                        } else {
                            match spec_body_at(data, p + 8) {
                                None => None,
                                Some((b, q)) => Some(
                                    ReplayParts {
                                        header_size: hs,
                                        header_crc: hcrc,
                                        header_bytes: data.subrange(pos + 8, pos + 8 + hs),
                                        header: h,
                                        header_end: p,
                                        content_size: cs,
                                        content_crc: ccrc,
                                        content_bytes: data.subrange(p + 8, p + 8 + cs),
                                        body: b,
                                        body_end: q,
                                    },
                                ),
                            }
                        }
                    }
                },
            }
        }
    }
}

/// A structurally well-formed replay: its byte structure decodes and both
/// stored checksums match the bytes they cover. Such a replay parses
/// successfully under every CRC policy whenever the network stream is
/// skipped or forgiven.
pub open spec fn replay_well_formed(data: Seq<u8>) -> bool {
    match spec_replay_parts(data, 0) {
        Some(parts) => crc32(parts.header_bytes) == parts.header_crc && crc32(
            parts.content_bytes,
        ) == parts.content_crc,
        None => false,
    }
}

/// Whether a decoded replay value carries exactly the fields the byte
/// structure determines; the network frames are policy-dependent and judged
/// separately.
pub open spec fn replay_matches(rep: Replay, parts: ReplayParts) -> bool {
    &&& rep.header_size as int == parts.header_size
    &&& rep.header_crc as int == parts.header_crc
    &&& rep.major_version as int == parts.header.major_version
    &&& rep.minor_version as int == parts.header.minor_version
    &&& (match (rep.net_version, parts.header.net_version) {
        (Some(a), Some(b)) => a as int == b,
        (None, None) => true,
        _ => false,
    })
    &&& rep.game_type@ == parts.header.game_type
    &&& crate::header::props_view(rep.properties@) == parts.header.properties
    &&& rep.content_size as int == parts.content_size
    &&& rep.content_crc as int == parts.content_crc
    &&& rep.levels.deep_view() == parts.body.levels
    &&& rep.keyframes@ == parts.body.keyframes
    &&& debugs_view(rep.debug_info@) == parts.body.debug_info
    &&& ticks_view(rep.tick_marks@) == parts.body.tick_marks
    &&& rep.packages.deep_view() == parts.body.packages
    &&& rep.objects.deep_view() == parts.body.objects
    &&& rep.names.deep_view() == parts.body.names
    &&& class_indices_view(rep.class_indices@) == parts.body.class_indices
    &&& net_cache_view(rep.net_cache@) == parts.body.net_cache
}

/// Under the forgiving network policy: the frames are the network decode's
/// successful outcome, or absent exactly when some failing outcome was
/// consistent with the decode's staged specification.
pub open spec fn net_frames_post(parts: ReplayParts, frames: Option<NetworkFrames>) -> bool {
    match frames {
        Some(f) => network::net_parse_post(
            parts.header.properties,
            parts.body.network_data,
            parts.body.objects,
            parts.body.net_cache,
            Ok(f),
        ),
        None => network::net_decode_may_fail(
            parts.header.properties,
            parts.body.network_data,
            parts.body.objects,
            parts.body.net_cache,
        ),
    }
}

impl<'a> Parser<'a> {
    /// Positions a parser at the start of `data` with the given policies.
    pub fn new(data: &'a [u8], crc_check: CrcCheck, network_parse: NetworkParse) -> (p: Self)
        ensures
            p.core.data@ == data@,
            p.core.col == 0,
            p.core.wf(),
            p.crc_check == crc_check,
            p.network_parse == network_parse,
    {
        Parser { core: CoreParser::new(data), crc_check, network_parse }
    }

    /// Decodes the counted keyframe list at the cursor.
    pub fn parse_keyframe(&mut self) -> (r: Result<Vec<KeyFrame>, ParseError>)
        requires
            old(self).core.wf(),
        ensures
            final(self).core.data@ == old(self).core.data@,
            final(self).core.wf(),
            final(self).crc_check == old(self).crc_check,
            final(self).network_parse == old(self).network_parse,
            match r {
                Ok(v) => spec_keyframe_list(old(self).core.data@, old(self).core.col as int)
                    == Some((v@, final(self).core.col as int)),
                Err(e) => spec_keyframe_list(old(self).core.data@, old(self).core.col as int)
                    is None && e == spec_keyframe_list_fail(
                    old(self).core.data@,
                    old(self).core.col as int,
                ).0 && final(self).core.col == spec_keyframe_list_fail(
                    old(self).core.data@,
                    old(self).core.col as int,
                ).1,
            },
    {
        let ghost data = self.core.data@;
        let count = match self.core.list_count(12) {
            Ok(c) => c,
            Err(e) => {
                return Err(e);
            },
        };
        let ghost p0 = self.core.col as int;
        let mut out: Vec<KeyFrame> = Vec::new();
        let mut k: usize = 0;
        while k < count
            invariant
                self.core.wf(),
                self.core.data@ == data,
                data == old(self).core.data@,
                self.crc_check == old(self).crc_check,
                self.network_parse == old(self).network_parse,
                spec_count_at(data, old(self).core.col as int, 12) == Some((count as int, p0)),
                self.core.col == p0 + 12 * k,
                k <= count,
                match spec_keyframes(data, self.core.col as int, (count - k) as nat) {
                    Some((rest, pe)) => spec_keyframes(data, p0, count as nat) == Some(
                        (out@ + rest, pe),
                    ),
                    None => spec_keyframes(data, p0, count as nat) is None,
                },
            decreases count - k,
        {
            let ghost ck = self.core.col as int;
            let time_bits = match self.core.take_u32() {
                Ok(v) => v,
                Err(e) => {
                    proof {
                        assert((k + 1) * 12 <= count * 12) by (nonlinear_arith)
                            requires
                                k < count,
                        ;
                        assert(false);
                    }
                    return Err(e);
                },
            };
            let frame = match self.core.take_i32() {
                Ok(v) => v,
                Err(e) => {
                    proof {
                        assert((k + 1) * 12 <= count * 12) by (nonlinear_arith)
                            requires
                                k < count,
                        ;
                        assert(false);
                    }
                    return Err(e);
                },
            };
            let position = match self.core.take_i32() {
                Ok(v) => v,
                Err(e) => {
                    proof {
                        assert((k + 1) * 12 <= count * 12) by (nonlinear_arith)
                            requires
                                k < count,
                        ;
                        assert(false);
                    }
                    return Err(e);
                },
            };
            let kf = KeyFrame { time_bits, frame, position };
            proof {
                assert(spec_keyframe_at(data, ck) == Some((kf, self.core.col as int)));
            }
            let ghost prev = out@;
            out.push(kf);
            proof {
                match spec_keyframes(data, self.core.col as int, (count - k - 1) as nat) {
                    Some((rest2, pe)) => {
                        assert(prev + (seq![kf] + rest2) =~= out@ + rest2);
                    },
                    None => {
                        assert(spec_keyframes(data, ck, (count - k) as nat) is None);
                    },
                }
            }
            k = k + 1;
        }
        proof {
            assert(spec_keyframes(data, self.core.col as int, 0) == Some(
                (Seq::<KeyFrame>::empty(), self.core.col as int),
            ));
            assert(out@ + Seq::<KeyFrame>::empty() =~= out@);
        }
        Ok(out)
    }

    /// Decodes the counted tick mark list at the cursor.
    pub fn parse_tickmarks(&mut self) -> (r: Result<Vec<TickMark>, ParseError>)
        requires
            old(self).core.wf(),
        ensures
            final(self).core.data@ == old(self).core.data@,
            final(self).core.wf(),
            final(self).crc_check == old(self).crc_check,
            final(self).network_parse == old(self).network_parse,
            match r {
                Ok(v) => spec_tickmark_list(old(self).core.data@, old(self).core.col as int)
                    == Some((ticks_view(v@), final(self).core.col as int)),
                Err(e) => spec_tickmark_list(old(self).core.data@, old(self).core.col as int)
                    is None && e == spec_tickmark_list_fail(
                    old(self).core.data@,
                    old(self).core.col as int,
                ).0 && final(self).core.col == spec_tickmark_list_fail(
                    old(self).core.data@,
                    old(self).core.col as int,
                ).1,
            },
    {
        let ghost data = self.core.data@;
        let count = match self.core.list_count(8) {
            Ok(c) => c,
            Err(e) => {
                return Err(e);
            },
        };
        let ghost p0 = self.core.col as int;
        let mut out: Vec<TickMark> = Vec::new();
        let mut k: usize = 0;
        while k < count
            invariant
                self.core.wf(),
                self.core.data@ == data,
                data == old(self).core.data@,
                self.crc_check == old(self).crc_check,
                self.network_parse == old(self).network_parse,
                spec_count_at(data, old(self).core.col as int, 8) == Some((count as int, p0)),
                spec_tickmarks_fail(data, p0, count as nat) == spec_tickmarks_fail(
                    data,
                    self.core.col as int,
                    (count - k) as nat,
                ),
                k <= count,
                match spec_tickmarks(data, self.core.col as int, (count - k) as nat) {
                    Some((rest, pe)) => spec_tickmarks(data, p0, count as nat) == Some(
                        (ticks_view(out@) + rest, pe),
                    ),
                    None => spec_tickmarks(data, p0, count as nat) is None,
                },
            decreases count - k,
        {
            let ghost ck = self.core.col as int;
            let description = match self.core.parse_text() {
                Ok(v) => v,
                Err(e) => {
                    proof {
                        assert(spec_tickmarks(data, ck, (count - k) as nat) is None);
                        assert(spec_tickmarks_fail(data, ck, (count - k) as nat)
                            == spec_tickmark_fail_at(data, ck));
                    }
                    return Err(e);
                },
            };
            let frame = match self.core.take_i32() {
                Ok(v) => v,
                Err(e) => {
                    proof {
                        assert(spec_tickmarks(data, ck, (count - k) as nat) is None);
                        assert(spec_tickmarks_fail(data, ck, (count - k) as nat)
                            == spec_tickmark_fail_at(data, ck));
                    }
                    return Err(e);
                },
            };
            let tm = TickMark { description, frame };
            let ghost m = TickMarkModel { description: tm.description@, frame: tm.frame as int };
            proof {
                assert(spec_tickmark_at(data, ck) == Some((m, self.core.col as int)));
            }
            let ghost prev = out@;
            out.push(tm);
            proof {
                assert(ticks_view(out@) =~= ticks_view(prev) + seq![m]);
                match spec_tickmarks(data, self.core.col as int, (count - k - 1) as nat) {
                    Some((rest2, pe)) => {
                        assert(ticks_view(prev) + (seq![m] + rest2) =~= ticks_view(out@) + rest2);
                    },
                    None => {
                        assert(spec_tickmarks(data, ck, (count - k) as nat) is None);
                    },
                }
            }
            k = k + 1;
        }
        proof {
            assert(spec_tickmarks(data, self.core.col as int, 0) == Some(
                (Seq::<TickMarkModel>::empty(), self.core.col as int),
            ));
            assert(ticks_view(out@) + Seq::<TickMarkModel>::empty() =~= ticks_view(out@));
        }
        Ok(out)
    }

    /// Decodes the counted debug line list at the cursor.
    pub fn parse_debuginfo(&mut self) -> (r: Result<Vec<DebugInfo>, ParseError>)
        requires
            old(self).core.wf(),
        ensures
            final(self).core.data@ == old(self).core.data@,
            final(self).core.wf(),
            final(self).crc_check == old(self).crc_check,
            final(self).network_parse == old(self).network_parse,
            match r {
                Ok(v) => spec_debuginfo_list(old(self).core.data@, old(self).core.col as int)
                    == Some((debugs_view(v@), final(self).core.col as int)),
                Err(e) => spec_debuginfo_list(old(self).core.data@, old(self).core.col as int)
                    is None && e == spec_debuginfo_list_fail(
                    old(self).core.data@,
                    old(self).core.col as int,
                ).0 && final(self).core.col == spec_debuginfo_list_fail(
                    old(self).core.data@,
                    old(self).core.col as int,
                ).1,
            },
    {
        let ghost data = self.core.data@;
        let count = match self.core.list_count(12) {
            Ok(c) => c,
            Err(e) => {
                return Err(e);
            },
        };
        let ghost p0 = self.core.col as int;
        let mut out: Vec<DebugInfo> = Vec::new();
        let mut k: usize = 0;
        while k < count
            invariant
                self.core.wf(),
                self.core.data@ == data,
                data == old(self).core.data@,
                self.crc_check == old(self).crc_check,
                self.network_parse == old(self).network_parse,
                spec_count_at(data, old(self).core.col as int, 12) == Some((count as int, p0)),
                spec_debuginfos_fail(data, p0, count as nat) == spec_debuginfos_fail(
                    data,
                    self.core.col as int,
                    (count - k) as nat,
                ),
                k <= count,
                match spec_debuginfos(data, self.core.col as int, (count - k) as nat) {
                    Some((rest, pe)) => spec_debuginfos(data, p0, count as nat) == Some(
                        (debugs_view(out@) + rest, pe),
                    ),
                    None => spec_debuginfos(data, p0, count as nat) is None,
                },
            decreases count - k,
        {
            let ghost ck = self.core.col as int;
            let frame = match self.core.take_i32() {
                Ok(v) => v,
                Err(e) => {
                    proof {
                        assert(spec_debuginfos(data, ck, (count - k) as nat) is None);
                        assert(spec_debuginfos_fail(data, ck, (count - k) as nat)
                            == spec_debuginfo_fail_at(data, ck));
                    }
                    return Err(e);
                },
            };
            let user = match self.core.parse_text() {
                Ok(v) => v,
                Err(e) => {
                    proof {
                        assert(spec_debuginfos(data, ck, (count - k) as nat) is None);
                        assert(spec_debuginfos_fail(data, ck, (count - k) as nat)
                            == spec_debuginfo_fail_at(data, ck));
                    }
                    return Err(e);
                },
            };
            let text = match self.core.parse_text() {
                Ok(v) => v,
                Err(e) => {
                    proof {
                        assert(spec_debuginfos(data, ck, (count - k) as nat) is None);
                        assert(spec_debuginfos_fail(data, ck, (count - k) as nat)
                            == spec_debuginfo_fail_at(data, ck));
                    }
                    return Err(e);
                },
            };
            let di = DebugInfo { frame, user, text };
            let ghost m = DebugInfoModel {
                frame: di.frame as int,
                user: di.user@,
                text: di.text@,
            };
            proof {
                assert(spec_debuginfo_at(data, ck) == Some((m, self.core.col as int)));
            }
            let ghost prev = out@;
            out.push(di);
            proof {
                assert(debugs_view(out@) =~= debugs_view(prev) + seq![m]);
                match spec_debuginfos(data, self.core.col as int, (count - k - 1) as nat) {
                    Some((rest2, pe)) => {
                        assert(debugs_view(prev) + (seq![m] + rest2) =~= debugs_view(out@)
                            + rest2);
                    },
                    None => {
                        assert(spec_debuginfos(data, ck, (count - k) as nat) is None);
                    },
                }
            }
            k = k + 1;
        }
        proof {
            assert(spec_debuginfos(data, self.core.col as int, 0) == Some(
                (Seq::<DebugInfoModel>::empty(), self.core.col as int),
            ));
            assert(debugs_view(out@) + Seq::<DebugInfoModel>::empty() =~= debugs_view(out@));
        }
        Ok(out)
    }

    /// Decodes the counted class index list at the cursor.
    pub fn parse_classindex(&mut self) -> (r: Result<Vec<ClassIndex>, ParseError>)
        requires
            old(self).core.wf(),
        ensures
            final(self).core.data@ == old(self).core.data@,
            final(self).core.wf(),
            final(self).crc_check == old(self).crc_check,
            final(self).network_parse == old(self).network_parse,
            match r {
                Ok(v) => spec_classindex_list(old(self).core.data@, old(self).core.col as int)
                    == Some((class_indices_view(v@), final(self).core.col as int)),
                Err(e) => spec_classindex_list(old(self).core.data@, old(self).core.col as int)
                    is None && e == spec_classindex_list_fail(
                    old(self).core.data@,
                    old(self).core.col as int,
                ).0 && final(self).core.col == spec_classindex_list_fail(
                    old(self).core.data@,
                    old(self).core.col as int,
                ).1,
            },
    {
        let ghost data = self.core.data@;
        let count = match self.core.list_count(8) {
            Ok(c) => c,
            Err(e) => {
                return Err(e);
            },
        };
        let ghost p0 = self.core.col as int;
        let mut out: Vec<ClassIndex> = Vec::new();
        let mut k: usize = 0;
        while k < count
            invariant
                self.core.wf(),
                self.core.data@ == data,
                data == old(self).core.data@,
                self.crc_check == old(self).crc_check,
                self.network_parse == old(self).network_parse,
                spec_count_at(data, old(self).core.col as int, 8) == Some((count as int, p0)),
                spec_classindices_fail(data, p0, count as nat) == spec_classindices_fail(
                    data,
                    self.core.col as int,
                    (count - k) as nat,
                ),
                k <= count,
                match spec_classindices(data, self.core.col as int, (count - k) as nat) {
                    Some((rest, pe)) => spec_classindices(data, p0, count as nat) == Some(
                        (class_indices_view(out@) + rest, pe),
                    ),
                    None => spec_classindices(data, p0, count as nat) is None,
                },
            decreases count - k,
        {
            let ghost ck = self.core.col as int;
            let class = match self.core.parse_str() {
                Ok(v) => v,
                Err(e) => {
                    proof {
                        assert(spec_classindices(data, ck, (count - k) as nat) is None);
                        assert(spec_classindices_fail(data, ck, (count - k) as nat)
                            == spec_classindex_fail_at(data, ck));
                    }
                    return Err(e);
                },
            };
            let index = match self.core.take_i32() {
                Ok(v) => v,
                Err(e) => {
                    proof {
                        assert(spec_classindices(data, ck, (count - k) as nat) is None);
                        assert(spec_classindices_fail(data, ck, (count - k) as nat)
                            == spec_classindex_fail_at(data, ck));
                    }
                    return Err(e);
                },
            };
            let ci = ClassIndex { class, index };
            let ghost m = ClassIndexModel { class: ci.class@, index: ci.index as int };
            proof {
                assert(spec_classindex_at(data, ck) == Some((m, self.core.col as int)));
            }
            let ghost prev = out@;
            out.push(ci);
            proof {
                assert(class_indices_view(out@) =~= class_indices_view(prev) + seq![m]);
                match spec_classindices(data, self.core.col as int, (count - k - 1) as nat) {
                    Some((rest2, pe)) => {
                        assert(class_indices_view(prev) + (seq![m] + rest2) =~= class_indices_view(
                            out@,
                        ) + rest2);
                    },
                    None => {
                        assert(spec_classindices(data, ck, (count - k) as nat) is None);
                    },
                }
            }
            k = k + 1;
        }
        proof {
            assert(spec_classindices(data, self.core.col as int, 0) == Some(
                (Seq::<ClassIndexModel>::empty(), self.core.col as int),
            ));
            assert(class_indices_view(out@) + Seq::<ClassIndexModel>::empty()
                =~= class_indices_view(out@));
        }
        Ok(out)
    }

    /// Decodes the counted cache property list at the cursor.
    fn parse_cacheprops(&mut self) -> (r: Result<Vec<CacheProp>, ParseError>)
        requires
            old(self).core.wf(),
        ensures
            final(self).core.data@ == old(self).core.data@,
            final(self).core.wf(),
            final(self).crc_check == old(self).crc_check,
            final(self).network_parse == old(self).network_parse,
            match r {
                Ok(v) => match spec_count_at(
                    old(self).core.data@,
                    old(self).core.col as int,
                    8,
                ) {
                    Some((n, p)) => spec_cacheprops(old(self).core.data@, p, n as nat) == Some(
                        (v@, final(self).core.col as int),
                    ),
                    None => false,
                },
                Err(e) => spec_count_at(old(self).core.data@, old(self).core.col as int, 8)
                    is None && e == spec_count_err(
                    old(self).core.data@,
                    old(self).core.col as int,
                    8,
                ) && final(self).core.col == spec_count_errpos(
                    old(self).core.data@,
                    old(self).core.col as int,
                ),
            },
    {
        let ghost data = self.core.data@;
        let count = match self.core.list_count(8) {
            Ok(c) => c,
            Err(e) => {
                return Err(e);
            },
        };
        let ghost p0 = self.core.col as int;
        let mut out: Vec<CacheProp> = Vec::new();
        let mut k: usize = 0;
        while k < count
            invariant
                self.core.wf(),
                self.core.data@ == data,
                data == old(self).core.data@,
                self.crc_check == old(self).crc_check,
                self.network_parse == old(self).network_parse,
                spec_count_at(data, old(self).core.col as int, 8) == Some((count as int, p0)),
                self.core.col == p0 + 8 * k,
                k <= count,
                match spec_cacheprops(data, self.core.col as int, (count - k) as nat) {
                    Some((rest, pe)) => spec_cacheprops(data, p0, count as nat) == Some(
                        (out@ + rest, pe),
                    ),
                    None => spec_cacheprops(data, p0, count as nat) is None,
                },
            decreases count - k,
        {
            let ghost ck = self.core.col as int;
            let object_ind = match self.core.take_i32() {
                Ok(v) => v,
                Err(e) => {
                    proof {
                        assert((k + 1) * 8 <= count * 8) by (nonlinear_arith)
                            requires
                                k < count,
                        ;
                        assert(false);
                    }
                    return Err(e);
                },
            };
            let stream_id = match self.core.take_i32() {
                Ok(v) => v,
                Err(e) => {
                    proof {
                        assert((k + 1) * 8 <= count * 8) by (nonlinear_arith)
                            requires
                                k < count,
                        ;
                        assert(false);
                    }
                    return Err(e);
                },
            };
            let cp = CacheProp { object_ind, stream_id };
            proof {
                assert(spec_cacheprop_at(data, ck) == Some((cp, self.core.col as int)));
            }
            let ghost prev = out@;
            out.push(cp);
            proof {
                match spec_cacheprops(data, self.core.col as int, (count - k - 1) as nat) {
                    Some((rest2, pe)) => {
                        assert(prev + (seq![cp] + rest2) =~= out@ + rest2);
                    },
                    None => {
                        assert(spec_cacheprops(data, ck, (count - k) as nat) is None);
                    },
                }
            }
            k = k + 1;
        }
        proof {
            assert(spec_cacheprops(data, self.core.col as int, 0) == Some(
                (Seq::<CacheProp>::empty(), self.core.col as int),
            ));
            assert(out@ + Seq::<CacheProp>::empty() =~= out@);
        }
        Ok(out)
    }

    /// Decodes the counted class-net-cache list at the cursor.
    pub fn parse_classcache(&mut self) -> (r: Result<Vec<ClassNetCache>, ParseError>)
        requires
            old(self).core.wf(),
        ensures
            final(self).core.data@ == old(self).core.data@,
            final(self).core.wf(),
            final(self).crc_check == old(self).crc_check,
            final(self).network_parse == old(self).network_parse,
            match r {
                Ok(v) => spec_classcache_list(old(self).core.data@, old(self).core.col as int)
                    == Some((net_cache_view(v@), final(self).core.col as int)),
                Err(e) => spec_classcache_list(old(self).core.data@, old(self).core.col as int)
                    is None && e == spec_classcache_list_fail(
                    old(self).core.data@,
                    old(self).core.col as int,
                ).0 && final(self).core.col == spec_classcache_list_fail(
                    old(self).core.data@,
                    old(self).core.col as int,
                ).1,
            },
    {
        let ghost data = self.core.data@;
        let count = match self.core.list_count(16) {
            Ok(c) => c,
            Err(e) => {
                return Err(e);
            },
        };
        let ghost p0 = self.core.col as int;
        let mut out: Vec<ClassNetCache> = Vec::new();
        let mut k: usize = 0;
        while k < count
            invariant
                self.core.wf(),
                self.core.data@ == data,
                data == old(self).core.data@,
                self.crc_check == old(self).crc_check,
                self.network_parse == old(self).network_parse,
                spec_count_at(data, old(self).core.col as int, 16) == Some((count as int, p0)),
                spec_classcaches_fail(data, p0, count as nat) == spec_classcaches_fail(
                    data,
                    self.core.col as int,
                    (count - k) as nat,
                ),
                k <= count,
                match spec_classcaches(data, self.core.col as int, (count - k) as nat) {
                    Some((rest, pe)) => spec_classcaches(data, p0, count as nat) == Some(
                        (net_cache_view(out@) + rest, pe),
                    ),
                    None => spec_classcaches(data, p0, count as nat) is None,
                },
            decreases count - k,
        {
            let ghost ck = self.core.col as int;
            let object_ind = match self.core.take_i32() {
                Ok(v) => v,
                Err(e) => {
                    proof {
                        assert(spec_classcaches(data, ck, (count - k) as nat) is None);
                        assert(spec_classcaches_fail(data, ck, (count - k) as nat)
                            == spec_classcache_fail_at(data, ck));
                    }
                    return Err(e);
                },
            };
            let parent_id = match self.core.take_i32() {
                Ok(v) => v,
                Err(e) => {
                    proof {
                        assert(spec_classcaches(data, ck, (count - k) as nat) is None);
                        assert(spec_classcaches_fail(data, ck, (count - k) as nat)
                            == spec_classcache_fail_at(data, ck));
                    }
                    return Err(e);
                },
            };
            let cache_id = match self.core.take_i32() {
                Ok(v) => v,
                Err(e) => {
                    proof {
                        assert(spec_classcaches(data, ck, (count - k) as nat) is None);
                        assert(spec_classcaches_fail(data, ck, (count - k) as nat)
                            == spec_classcache_fail_at(data, ck));
                    }
                    return Err(e);
                },
            };
            let properties = match self.parse_cacheprops() {
                Ok(v) => v,
                Err(e) => {
                    proof {
                        assert(spec_classcache_at(data, ck) is None);
                        assert(spec_classcaches(data, ck, (count - k) as nat) is None);
                        assert(spec_classcaches_fail(data, ck, (count - k) as nat)
                            == spec_classcache_fail_at(data, ck));
                    }
                    return Err(e);
                },
            };
            let cc = ClassNetCache { object_ind, parent_id, cache_id, properties };
            let ghost m = ClassNetCacheModel {
                object_ind: cc.object_ind as int,
                parent_id: cc.parent_id as int,
                cache_id: cc.cache_id as int,
                properties: cc.properties@,
            };
            proof {
                assert(spec_classcache_at(data, ck) == Some((m, self.core.col as int)));
            }
            let ghost prev = out@;
            out.push(cc);
            proof {
                assert(net_cache_view(out@) =~= net_cache_view(prev) + seq![m]);
                match spec_classcaches(data, self.core.col as int, (count - k - 1) as nat) {
                    Some((rest2, pe)) => {
                        assert(net_cache_view(prev) + (seq![m] + rest2) =~= net_cache_view(out@)
                            + rest2);
                    },
                    None => {
                        assert(spec_classcaches(data, ck, (count - k) as nat) is None);
                    },
                }
            }
            k = k + 1;
        }
        proof {
            assert(spec_classcaches(data, self.core.col as int, 0) == Some(
                (Seq::<ClassNetCacheModel>::empty(), self.core.col as int),
            ));
            assert(net_cache_view(out@) + Seq::<ClassNetCacheModel>::empty() =~= net_cache_view(
                out@,
            ));
        }
        Ok(out)
    }
}

impl<'a> Parser<'a> {
    /// Decodes the whole body at the cursor, labelling each stage's error
    /// with its section name and the byte offset where decoding stopped.
    pub fn parse_body(&mut self) -> (r: Result<ReplayBody<'a>, ParseError>)
        requires
            old(self).core.wf(),
        ensures
            final(self).core.data@ == old(self).core.data@,
            final(self).core.wf(),
            final(self).crc_check == old(self).crc_check,
            final(self).network_parse == old(self).network_parse,
            match r {
                Ok(b) => spec_body_at(old(self).core.data@, old(self).core.col as int) == Some(
                    (b.view_model(), final(self).core.col as int),
                ),
                Err(e) => spec_body_at(old(self).core.data@, old(self).core.col as int) is None
                    && (e matches ParseError::Section(l, o, c) && l@ == spec_body_fail(
                    old(self).core.data@,
                    old(self).core.col as int,
                ).0 && o as int == spec_body_fail(
                    old(self).core.data@,
                    old(self).core.col as int,
                ).1 && *c == spec_body_fail(
                    old(self).core.data@,
                    old(self).core.col as int,
                ).2),
            },
    {
        let ghost data = self.core.data@;
        let levels = match self.core.text_list() {
            Ok(v) => v,
            Err(e) => {
                return Err(
                    ParseError::Section("levels", self.core.bytes_read(), Box::new(e)),
                );
            },
        };
        let keyframes = match self.parse_keyframe() {
            Ok(v) => v,
            Err(e) => {
                return Err(
                    ParseError::Section("keyframes", self.core.bytes_read(), Box::new(e)),
                );
            },
        };
        let network_size = match self.core.take_i32() {
            Ok(v) => v,
            Err(e) => {
                return Err(
                    ParseError::Section("network size", self.core.bytes_read(), Box::new(e)),
                );
            },
        };
        if network_size < 0 {
            return Err(
                ParseError::Section(
                    "network data",
                    self.core.bytes_read(),
                    Box::new(
                        ParseError::InsufficientBytes {
                            expected: usize::MAX,
                            available: self.core.data.len() - self.core.bytes_read(),
                            offset: self.core.bytes_read(),
                        },
                    ),
                ),
            );
        }
        let network_data = match self.core.take_bytes(network_size as usize) {
            Ok(v) => v,
            Err(e) => {
                return Err(
                    ParseError::Section("network data", self.core.bytes_read(), Box::new(e)),
                );
            },
        };
        let debug_info = match self.parse_debuginfo() {
            Ok(v) => v,
            Err(e) => {
                return Err(
                    ParseError::Section("debug info", self.core.bytes_read(), Box::new(e)),
                );
            },
        };
        let tick_marks = match self.parse_tickmarks() {
            Ok(v) => v,
            Err(e) => {
                return Err(
                    ParseError::Section("tickmarks", self.core.bytes_read(), Box::new(e)),
                );
            },
        };
        let packages = match self.core.text_list() {
            Ok(v) => v,
            Err(e) => {
                return Err(
                    ParseError::Section("packages", self.core.bytes_read(), Box::new(e)),
                );
            },
        };
        let objects = match self.core.text_list() {
            Ok(v) => v,
            Err(e) => {
                return Err(
                    ParseError::Section("objects", self.core.bytes_read(), Box::new(e)),
                );
            },
        };
        let names = match self.core.text_list() {
            Ok(v) => v,
            Err(e) => {
                return Err(
                    ParseError::Section("names", self.core.bytes_read(), Box::new(e)),
                );
            },
        };
        let class_indices = match self.parse_classindex() {
            Ok(v) => v,
            Err(e) => {
                return Err(
                    ParseError::Section("class index", self.core.bytes_read(), Box::new(e)),
                );
            },
        };
        let net_cache = match self.parse_classcache() {
            Ok(v) => v,
            Err(e) => {
                return Err(
                    ParseError::Section("net cache", self.core.bytes_read(), Box::new(e)),
                );
            },
        };
        let body = ReplayBody {
            levels,
            keyframes,
            debug_info,
            tick_marks,
            packages,
            objects,
            names,
            class_indices,
            net_cache,
            network_data,
        };
        proof {
            assert(spec_body_at(data, old(self).core.col as int) matches Some((bm, pe)) && bm
                =~~= body.view_model() && pe == self.core.col as int);
        }
        Ok(body)
    }

    /// Applies the CRC policy to a section: the stored checksum, the
    /// section's bytes, its label, and the outcome of its structured decode.
    pub fn crc_section<T>(
        &self,
        data: &[u8],
        crc: u32,
        section: &str,
        result: Result<T, ParseError>,
    ) -> (r: Result<T, ParseError>)
        ensures
            match self.crc_check {
                CrcCheck::Never => r == result,
                CrcCheck::Always => if crc32(data@) != crc {
                    r matches Err(e) && e == ParseError::CrcMismatch(crc, crc32(data@))
                } else {
                    r == result
                },
                CrcCheck::OnError => match result {
                    Ok(_) => r == result,
                    Err(e0) => if crc32(data@) != crc {
                        r matches Err(e) && (e matches ParseError::CorruptReplay(s, c) && s@
                            == section@ && *c == e0)
                    } else {
                        r == result
                    },
                },
            },
    {
        match self.crc_check {
            CrcCheck::Always => {
                let actual = calc_crc(data);
                if actual != crc {
                    Err(ParseError::CrcMismatch(crc, actual))
                } else {
                    result
                }
            },
            CrcCheck::OnError => match result {
                Ok(v) => Ok(v),
                Err(e) => {
                    let actual = calc_crc(data);
                    if actual != crc {
                        Err(
                            ParseError::CorruptReplay(String::from_str(section), Box::new(e)),
                        )
                    } else {
                        Err(e)
                    }
                },
            },
            CrcCheck::Never => result,
        }
    }

    /// Decodes the header at the cursor.
    pub fn parse_header(&mut self) -> (r: Result<Header, ParseError>)
        requires
            old(self).core.wf(),
        ensures
            final(self).core.data@ == old(self).core.data@,
            final(self).core.wf(),
            final(self).crc_check == old(self).crc_check,
            final(self).network_parse == old(self).network_parse,
            match r {
                Ok(h) => spec_header_at(old(self).core.data@, old(self).core.col as int) == Some(
                    (header_view(h), final(self).core.col as int),
                ),
                Err(e) => spec_header_at(old(self).core.data@, old(self).core.col as int)
                    is None && header_err_matches(
                    old(self).core.data@,
                    old(self).core.col as int,
                    e,
                    final(self).core.col as int,
                ),
            },
    {
        parse_header(&mut self.core)
    }

    /// Decodes the network stream of a parsed header and body.
    pub fn parse_network(&self, header: &Header, body: &ReplayBody) -> (r: Result<
        NetworkFrames,
        NetworkError,
    >)
        ensures
            network::net_parse_post(
                crate::header::props_view(header.properties@),
                body.network_data@,
                body.objects.deep_view(),
                net_cache_view(body.net_cache@),
                r,
            ),
    {
        network::parse(header, body)
    }

    /// Decodes a whole replay at the cursor, applying both policies.
    #[verifier::rlimit(100)]
    pub fn parse(&mut self) -> (r: Result<Replay, ParseError>)
        requires
            old(self).core.wf(),
        ensures
            final(self).core.data@ == old(self).core.data@,
            final(self).core.wf(),
            final(self).crc_check == old(self).crc_check,
            final(self).network_parse == old(self).network_parse,
            parse_err_post(
                old(self).core.data@,
                old(self).core.col as int,
                old(self).crc_check,
                r,
            ),
            ({
                let data = old(self).core.data@;
                let pos = old(self).core.col as int;
                let c = old(self).crc_check;
                let n = old(self).network_parse;
                match spec_replay_parts(data, pos) {
                    None => r is Err,
                    Some(parts) => {
                        let hmis = crc32(parts.header_bytes) != parts.header_crc;
                        let bmis = crc32(parts.content_bytes) != parts.content_crc;
                        &&& (c == CrcCheck::Always && hmis ==> (r matches Err(e) && e
                            == ParseError::CrcMismatch(
                            parts.header_crc as u32,
                            crc32(parts.header_bytes),
                        )))
                        &&& (c == CrcCheck::Always && !hmis && bmis ==> (r matches Err(e) && e
                            == ParseError::CrcMismatch(
                            parts.content_crc as u32,
                            crc32(parts.content_bytes),
                        )))
                        &&& ((c != CrcCheck::Always || (!hmis && !bmis)) ==> match n {
                            NetworkParse::Never => r matches Ok(rep) && replay_matches(rep, parts)
                                && rep.network_frames is None,
                            NetworkParse::IgnoreOnError => r matches Ok(rep) && replay_matches(
                                rep,
                                parts,
                            ) && net_frames_post(parts, rep.network_frames),
                            NetworkParse::Always => (r matches Ok(rep) && replay_matches(rep, parts)
                                && (rep.network_frames matches Some(f)
                                && network::net_parse_post(
                                parts.header.properties,
                                parts.body.network_data,
                                parts.body.objects,
                                parts.body.net_cache,
                                Ok(f),
                            ))) || (r matches Err(e) && (e matches ParseError::Network(ne)
                                && network::net_parse_post(
                                parts.header.properties,
                                parts.body.network_data,
                                parts.body.objects,
                                parts.body.net_cache,
                                Err(*ne),
                            ))),
                        })
                    },
                }
            }),
    {
        let ghost data = self.core.data@;
        let ghost c0 = self.core.col as int;
        let header_size = match self.core.take_i32() {
            Ok(v) => v,
            Err(e) => {
                return Err(
                    ParseError::Section("header size", self.core.bytes_read(), Box::new(e)),
                );
            },
        };
        let header_crc = match self.core.take_u32() {
            Ok(v) => v,
            Err(e) => {
                return Err(
                    ParseError::Section("header crc", self.core.bytes_read(), Box::new(e)),
                );
            },
        };
        if header_size < 0 {
            return Err(
                ParseError::Section(
                    "header data",
                    self.core.bytes_read(),
                    Box::new(
                        ParseError::InsufficientBytes {
                            expected: usize::MAX,
                            available: self.core.data.len() - self.core.bytes_read(),
                            offset: self.core.bytes_read(),
                        },
                    ),
                ),
            );
        }
        let header_data = match self.core.view_data(header_size as usize) {
            Ok(v) => v,
            Err(e) => {
                return Err(
                    ParseError::Section("header data", self.core.bytes_read(), Box::new(e)),
                );
            },
        };
        let header_result = self.parse_header();
        let ghost header_res = header_result;
        let header = match self.crc_section(header_data, header_crc, "header", header_result) {
            Ok(h) => h,
            Err(e) => {
                proof {
                    match header_res {
                        Err(he) => {
                            assert(header_err_matches(data, c0 + 8, he, self.core.col as int));
                            assert(header_fail_matches(data, c0 + 8, he));
                        },
                        Ok(_) => {},
                    }
                }
                return Err(e);
            },
        };
        let content_size = match self.core.take_i32() {
            Ok(v) => v,
            Err(e) => {
                return Err(
                    ParseError::Section("content size", self.core.bytes_read(), Box::new(e)),
                );
            },
        };
        let content_crc = match self.core.take_u32() {
            Ok(v) => v,
            Err(e) => {
                return Err(
                    ParseError::Section("content crc", self.core.bytes_read(), Box::new(e)),
                );
            },
        };
        if content_size < 0 {
            return Err(
                ParseError::Section(
                    "content data",
                    self.core.bytes_read(),
                    Box::new(
                        ParseError::InsufficientBytes {
                            expected: usize::MAX,
                            available: self.core.data.len() - self.core.bytes_read(),
                            offset: self.core.bytes_read(),
                        },
                    ),
                ),
            );
        }
        let content_data = match self.core.view_data(content_size as usize) {
            Ok(v) => v,
            Err(e) => {
                return Err(
                    ParseError::Section("content data", self.core.bytes_read(), Box::new(e)),
                );
            },
        };
        let body_result = self.parse_body();
        let body = match self.crc_section(content_data, content_crc, "body", body_result) {
            Ok(b) => b,
            Err(e) => {
                return Err(e);
            },
        };
        let network: Option<NetworkFrames> = match self.network_parse {
            NetworkParse::Always => match self.parse_network(&header, &body) {
                Ok(frames) => Some(frames),
                Err(x) => {
                    return Err(ParseError::Network(Box::new(x)));
                },
            },
            NetworkParse::IgnoreOnError => match self.parse_network(&header, &body) {
                Ok(frames) => Some(frames),
                Err(x) => {
                    proof {
                        assert(network::net_parse_post(
                            crate::header::props_view(header.properties@),
                            body.network_data@,
                            body.objects.deep_view(),
                            net_cache_view(body.net_cache@),
                            Err(x),
                        ));
                        assert(network::net_decode_may_fail(
                            crate::header::props_view(header.properties@),
                            body.network_data@,
                            body.objects.deep_view(),
                            net_cache_view(body.net_cache@),
                        ));
                    }
                    None
                },
            },
            NetworkParse::Never => None,
        };
        proof {
            assert(header_view(header).properties == crate::header::props_view(
                header.properties@,
            ));
            assert(body.view_model().network_data == body.network_data@);
            assert(body.view_model().objects == body.objects.deep_view());
            assert(body.view_model().net_cache == net_cache_view(body.net_cache@));
            match &network {
                Some(f) => {
                    assert(network::net_parse_post(
                        header_view(header).properties,
                        body.view_model().network_data,
                        body.view_model().objects,
                        body.view_model().net_cache,
                        Ok(*f),
                    ));
                },
                None => {},
            }
        }
        Ok(
            Replay {
                header_size,
                header_crc,
                major_version: header.major_version,
                minor_version: header.minor_version,
                net_version: header.net_version,
                game_type: header.game_type,
                properties: header.properties,
                content_size,
                content_crc,
                network_frames: network,
                levels: body.levels,
                keyframes: body.keyframes,
                debug_info: body.debug_info,
                tick_marks: body.tick_marks,
                packages: body.packages,
                objects: body.objects,
                names: body.names,
                class_indices: body.class_indices,
                net_cache: body.net_cache,
            },
        )
    }
}

/// The public entry point: collects the policies and hands the bytes to the
/// parser. Each policy left unset takes its default.
#[derive(Debug, Clone, PartialEq)]
pub struct ParserBuilder<'a> {
    pub data: &'a [u8],
    pub crc_check: Option<CrcCheck>,
    pub network_parse: Option<NetworkParse>,
}

impl<'a> ParserBuilder<'a> {
    /// Starts a builder over `data` with no policy chosen.
    pub fn new(data: &'a [u8]) -> (b: Self)
        ensures
            b.data@ == data@,
            b.crc_check is None,
            b.network_parse is None,
    {
        ParserBuilder { data, crc_check: None, network_parse: None }
    }

    /// Verifies every section's checksum.
    pub fn always_check_crc(self) -> (b: ParserBuilder<'a>)
        ensures
            b.data@ == self.data@,
            b.crc_check == Some(CrcCheck::Always),
            b.network_parse == self.network_parse,
    {
        ParserBuilder { crc_check: Some(CrcCheck::Always), ..self }
    }

    /// Skips every checksum.
    pub fn never_check_crc(self) -> (b: ParserBuilder<'a>)
        ensures
            b.data@ == self.data@,
            b.crc_check == Some(CrcCheck::Never),
            b.network_parse == self.network_parse,
    {
        ParserBuilder { crc_check: Some(CrcCheck::Never), ..self }
    }

    /// Verifies a section's checksum only after its decode failed.
    pub fn on_error_check_crc(self) -> (b: ParserBuilder<'a>)
        ensures
            b.data@ == self.data@,
            b.crc_check == Some(CrcCheck::OnError),
            b.network_parse == self.network_parse,
    {
        ParserBuilder { crc_check: Some(CrcCheck::OnError), ..self }
    }

    /// Sets the CRC policy.
    pub fn with_crc_check(self, check: CrcCheck) -> (b: ParserBuilder<'a>)
        ensures
            b.data@ == self.data@,
            b.crc_check == Some(check),
            b.network_parse == self.network_parse,
    {
        ParserBuilder { crc_check: Some(check), ..self }
    }

    /// Fails the parse when the network stream cannot be decoded.
    pub fn must_parse_network_data(self) -> (b: ParserBuilder<'a>)
        ensures
            b.data@ == self.data@,
            b.network_parse == Some(NetworkParse::Always),
            b.crc_check == self.crc_check,
    {
        ParserBuilder { network_parse: Some(NetworkParse::Always), ..self }
    }

    /// Skips the network stream.
    pub fn never_parse_network_data(self) -> (b: ParserBuilder<'a>)
        ensures
            b.data@ == self.data@,
            b.network_parse == Some(NetworkParse::Never),
            b.crc_check == self.crc_check,
    {
        ParserBuilder { network_parse: Some(NetworkParse::Never), ..self }
    }

    /// Keeps the replay without frames when the network stream cannot be
    /// decoded.
    pub fn ignore_network_data_on_error(self) -> (b: ParserBuilder<'a>)
        ensures
            b.data@ == self.data@,
            b.network_parse == Some(NetworkParse::IgnoreOnError),
            b.crc_check == self.crc_check,
    {
        ParserBuilder { network_parse: Some(NetworkParse::IgnoreOnError), ..self }
    }

    /// Sets the network policy.
    pub fn with_network_parse(self, parse: NetworkParse) -> (b: ParserBuilder<'a>)
        ensures
            b.data@ == self.data@,
            b.network_parse == Some(parse),
            b.crc_check == self.crc_check,
    {
        ParserBuilder { network_parse: Some(parse), ..self }
    }

    /// Parses the replay with the chosen policies, defaulting the CRC policy
    /// to `OnError` and the network policy to `IgnoreOnError`.
    pub fn parse(self) -> (r: Result<Replay, ParseError>)
        ensures
            replay_well_formed(self.data@) && self.network_parse != Some(NetworkParse::Always)
                ==> r is Ok,
            parse_err_post(
                self.data@,
                0,
                match self.crc_check {
                    Some(c) => c,
                    None => CrcCheck::OnError,
                },
                r,
            ),
            ({
                let c = match self.crc_check {
                    Some(c) => c,
                    None => CrcCheck::OnError,
                };
                let n = match self.network_parse {
                    Some(n) => n,
                    None => NetworkParse::IgnoreOnError,
                };
                match spec_replay_parts(self.data@, 0) {
                    None => r is Err,
                    Some(parts) => {
                        let hmis = crc32(parts.header_bytes) != parts.header_crc;
                        let bmis = crc32(parts.content_bytes) != parts.content_crc;
                        &&& (c == CrcCheck::Always && hmis ==> (r matches Err(e) && e
                            == ParseError::CrcMismatch(
                            parts.header_crc as u32,
                            crc32(parts.header_bytes),
                        )))
                        &&& (c == CrcCheck::Always && !hmis && bmis ==> (r matches Err(e) && e
                            == ParseError::CrcMismatch(
                            parts.content_crc as u32,
                            crc32(parts.content_bytes),
                        )))
                        &&& ((c != CrcCheck::Always || (!hmis && !bmis)) ==> match n {
                            NetworkParse::Never => r matches Ok(rep) && replay_matches(rep, parts)
                                && rep.network_frames is None,
                            NetworkParse::IgnoreOnError => r matches Ok(rep) && replay_matches(
                                rep,
                                parts,
                            ) && net_frames_post(parts, rep.network_frames),
                            NetworkParse::Always => (r matches Ok(rep) && replay_matches(rep, parts)
                                && (rep.network_frames matches Some(f)
                                && network::net_parse_post(
                                parts.header.properties,
                                parts.body.network_data,
                                parts.body.objects,
                                parts.body.net_cache,
                                Ok(f),
                            ))) || (r matches Err(e) && (e matches ParseError::Network(ne)
                                && network::net_parse_post(
                                parts.header.properties,
                                parts.body.network_data,
                                parts.body.objects,
                                parts.body.net_cache,
                                Err(*ne),
                            ))),
                        })
                    },
                }
            }),
    {
        let crc = match self.crc_check {
            Some(c) => c,
            None => CrcCheck::OnError,
        };
        let net = match self.network_parse {
            Some(n) => n,
            None => NetworkParse::IgnoreOnError,
        };
        let mut parser = Parser::new(self.data, crc, net);
        parser.parse()
    }
}

/// Skipping the network stream strips the frames and nothing else: two
/// decoded replays that both carry the fields the byte structure
/// determines agree on every field but the frames, and the one parsed with
/// the network stream skipped carries none.
pub proof fn lemma_network_never_strips_frames(r1: Replay, r2: Replay, parts: ReplayParts)
    requires
        replay_matches(r1, parts),
        replay_matches(r2, parts),
        r1.network_frames is None,
    ensures
        r1.network_frames is None,
        r1.header_size == r2.header_size,
        r1.header_crc == r2.header_crc,
        r1.major_version == r2.major_version,
        r1.minor_version == r2.minor_version,
        r1.net_version == r2.net_version,
        r1.game_type@ == r2.game_type@,
        crate::header::props_view(r1.properties@) == crate::header::props_view(r2.properties@),
        r1.content_size == r2.content_size,
        r1.content_crc == r2.content_crc,
        r1.levels.deep_view() == r2.levels.deep_view(),
        r1.keyframes@ == r2.keyframes@,
        debugs_view(r1.debug_info@) == debugs_view(r2.debug_info@),
        ticks_view(r1.tick_marks@) == ticks_view(r2.tick_marks@),
        r1.packages.deep_view() == r2.packages.deep_view(),
        r1.objects.deep_view() == r2.objects.deep_view(),
        r1.names.deep_view() == r2.names.deep_view(),
        class_indices_view(r1.class_indices@) == class_indices_view(r2.class_indices@),
        net_cache_view(r1.net_cache@) == net_cache_view(r2.net_cache@),
{
    match (r1.net_version, r2.net_version, parts.header.net_version) {
        (Some(a), Some(b), Some(c)) => {
            assert(a as int == c && b as int == c);
        },
        _ => {},
    }
}

} // verus!
