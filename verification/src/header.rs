//! The header: version triple, game type, and the property tree.
//!
//! The property tree is a keyed list terminated by the sentinel key `None`.
//! Each entry names its value's type; the eight bytes between the type and
//! the value are opaque in the format and skipped. Array properties nest
//! whole trees, so the decoder is recursive; it is specified against a
//! spec-level parser over the byte sequence whose result mirrors the
//! decoded tree.

use vstd::prelude::*;

use crate::core_parser::{le_i32_at, short_read_err, spec_count_at, spec_count_err,
    spec_count_errpos, spec_text_at, spec_text_err, spec_text_errpos, CoreParser};
use crate::errors::ParseError;
use crate::models::{Header, HeaderProp};
use crate::text::str_eq;

verus! {

/// The spec-level value of one header property.
#[verifier::ext_equal]
pub enum PropValue {
    Bool(bool),
    Byte { kind: Seq<char>, value: Option<Seq<char>> },
    Float(u32),
    Int(i32),
    QWord(u64),
    Name(Seq<char>),
    Str(Seq<char>),
    Array(Seq<Seq<(Seq<char>, PropValue)>>),
}

/// The spec-level value of the whole header.
pub struct HeaderModel {
    pub major_version: int,
    pub minor_version: int,
    pub net_version: Option<int>,
    pub game_type: Seq<char>,
    pub properties: Seq<(Seq<char>, PropValue)>,
}

/// The spec-level value a decoded property denotes.
pub open spec fn prop_view(p: HeaderProp) -> PropValue
    decreases p,
{
    match p {
        HeaderProp::Bool(b) => PropValue::Bool(b),
        HeaderProp::Byte { kind, value } => PropValue::Byte {
            kind: kind@,
            value: match value {
                Some(s) => Some(s@),
                None => None,
            },
        },
        HeaderProp::Float(b) => PropValue::Float(b),
        HeaderProp::Int(i) => PropValue::Int(i),
        HeaderProp::QWord(q) => PropValue::QWord(q),
        HeaderProp::Name(s) => PropValue::Name(s@),
        HeaderProp::Str(s) => PropValue::Str(s@),
        HeaderProp::Array(v) => PropValue::Array(trees_view(v@)),
    }
}

/// The spec-level value of a sequence of property trees.
pub open spec fn trees_view(s: Seq<Vec<(String, HeaderProp)>>) -> Seq<Seq<(Seq<char>, PropValue)>>
    decreases s,
{
    if s.len() == 0 {
        Seq::empty()
    } else {
        seq![props_view(s[0]@)] + trees_view(s.skip(1))
    }
}

/// The spec-level value of one property tree.
pub open spec fn props_view(s: Seq<(String, HeaderProp)>) -> Seq<(Seq<char>, PropValue)>
    decreases s,
{
    if s.len() == 0 {
        Seq::empty()
    } else {
        seq![(s[0].0@, prop_view(s[0].1))] + props_view(s.skip(1))
    }
}

/// The spec-level value of the decoded header.
pub open spec fn header_view(h: Header) -> HeaderModel {
    HeaderModel {
        major_version: h.major_version as int,
        minor_version: h.minor_version as int,
        net_version: match h.net_version {
            Some(v) => Some(v as int),
            None => None,
        },
        game_type: h.game_type@,
        properties: props_view(h.properties@),
    }
}

/// Whether a byte property's kind string is one of the online-platform
/// kinds after which the format writes no value string.
pub open spec fn is_online_platform(kind: Seq<char>) -> bool {
    kind == "OnlinePlatform_Steam"@ || kind == "OnlinePlatform_PS4"@
}

/// Whether a type string is none of the property types that precede the
/// array case in the decoder's dispatch.
pub open spec fn other_prop_types_excluded(ty: Seq<char>) -> bool {
    ty != "BoolProperty"@ && ty != "ByteProperty"@ && ty != "IntProperty"@ && ty
        != "FloatProperty"@ && ty != "QWordProperty"@ && ty != "NameProperty"@ && ty
        != "StrProperty"@
}

/// A property tree decoded at `pos`: entries in document order, without the
/// terminating `None` key, and the position after the terminator.
pub open spec fn spec_props(data: Seq<u8>, pos: int) -> Option<(Seq<(Seq<char>, PropValue)>, int)>
    decreases data.len() - pos, 0int,
{
    match spec_text_at(data, pos) {
        None => None,
        Some((key, p1)) => {
            if key == "None"@ {
                Some((Seq::empty(), p1))
            } else if !(pos < p1 <= data.len()) {
                None
            } else {
                match spec_text_at(data, p1) {
                    None => None,
                    Some((ty, p2)) => {
                        if !(p1 < p2 <= data.len()) || p2 + 8 > data.len() {
                            None
                        } else {
                            match spec_prop_value(data, p2 + 8, ty) {
                                None => None,
                                Some((v, p4)) => {
                                    if !(p2 + 8 < p4 <= data.len()) {
                                        None
                                    } else {
                                        match spec_props(data, p4) {
                                            None => None,
                                            Some((rest, p5)) => Some((seq![(key, v)] + rest, p5)),
                                        }
                                    }
                                },
                            }
                        }
                    },
                }
            }
        },
    }
}

/// A property value of type `ty` decoded at `pos`.
pub open spec fn spec_prop_value(data: Seq<u8>, pos: int, ty: Seq<char>) -> Option<
    (PropValue, int),
>
    decreases data.len() - pos, 0int,
{
    if ty == "BoolProperty"@ {
        if pos + 1 > data.len() {
            None
        } else {
            Some((PropValue::Bool(data[pos] == 1), pos + 1))
        }
    } else if ty == "ByteProperty"@ {
        match spec_text_at(data, pos) {
            None => None,
            Some((kind, p1)) => {
                if is_online_platform(kind) {
                    Some((PropValue::Byte { kind, value: None }, p1))
                } else {
                    match spec_text_at(data, p1) {
                        None => None,
                        Some((value, p2)) => Some(
                            (PropValue::Byte { kind, value: Some(value) }, p2),
                        ),
                    }
                }
            },
        }
    } else if ty == "IntProperty"@ {
        if pos + 4 > data.len() {
            None
        } else {
            Some((PropValue::Int(le_i32_at(data, pos) as i32), pos + 4))
        }
    } else if ty == "FloatProperty"@ {
        if pos + 4 > data.len() {
            None
        } else {
            Some((PropValue::Float(crate::core_parser::le_u32_at(data, pos) as u32), pos + 4))
        }
    } else if ty == "QWordProperty"@ {
        if pos + 8 > data.len() {
            None
        } else {
            Some(
                (
                    PropValue::QWord(
                        crate::core_parser::le_bytes(data.subrange(pos, pos + 8)) as u64,
                    ),
                    pos + 8,
                ),
            )
        }
    } else if ty == "NameProperty"@ {
        match spec_text_at(data, pos) {
            None => None,
            Some((s, p1)) => Some((PropValue::Name(s), p1)),
        }
    } else if ty == "StrProperty"@ {
        match spec_text_at(data, pos) {
            None => None,
            Some((s, p1)) => Some((PropValue::Str(s), p1)),
        }
    } else if ty == "ArrayProperty"@ {
        match spec_count_at(data, pos, 4) {
            None => None,
            Some((n, p1)) => match spec_prop_trees(data, p1, n as nat) {
                None => None,
                Some((ts, p2)) => Some((PropValue::Array(ts), p2)),
            },
        }
    } else {
        None
    }
}

/// `n` property trees decoded one after another at `pos`.
pub open spec fn spec_prop_trees(data: Seq<u8>, pos: int, n: nat) -> Option<
    (Seq<Seq<(Seq<char>, PropValue)>>, int),
>
    decreases data.len() - pos, 1int + n,
{
    if n == 0 {
        Some((Seq::empty(), pos))
    } else {
        match spec_props(data, pos) {
            None => None,
            Some((t, p1)) => {
                if !(pos < p1 <= data.len()) {
                    None
                } else {
                    match spec_prop_trees(data, p1, (n - 1) as nat) {
                        None => None,
                        Some((ts, p2)) => Some((seq![t] + ts, p2)),
                    }
                }
            },
        }
    }
}

/// The header decoded at `pos`: major and minor version, a network version
/// only when the version is recent enough to carry one, the game type, and
/// the property tree.
pub open spec fn spec_header_at(data: Seq<u8>, pos: int) -> Option<(HeaderModel, int)> {
    if pos + 8 > data.len() {
        None
    } else {
        let major = le_i32_at(data, pos);
        let minor = le_i32_at(data, pos + 4);
        let has_net = major > 865 && minor > 17;
        if has_net && pos + 12 > data.len() {
            None
        } else {
            let net = if has_net {
                Some(le_i32_at(data, pos + 8))
            } else {
                None
            };
            let p1 = if has_net {
                pos + 12
            } else {
                pos + 8
            };
            match spec_text_at(data, p1) {
                None => None,
                Some((game_type, p2)) => match spec_props(data, p2) {
                    None => None,
                    Some((props, p3)) => Some(
                        (
                            HeaderModel {
                                major_version: major,
                                minor_version: minor,
                                net_version: net,
                                game_type,
                                properties: props,
                            },
                            p3,
                        ),
                    ),
                },
            }
        }
    }
}


/// Whether `e` and the stopped cursor `c` are the failure of a property
/// tree decode at `pos`; meaningful only when that decode fails.
pub open spec fn props_err_matches(data: Seq<u8>, pos: int, e: ParseError, c: int) -> bool
    decreases data.len() - pos, 0int,
{
    match spec_text_at(data, pos) {
        None => e == spec_text_err(data, pos) && c == spec_text_errpos(data, pos),
        Some((key, p1)) => {
            if key == "None"@ {
                false
            } else if !(pos < p1 <= data.len()) {
                false
            } else {
                match spec_text_at(data, p1) {
                    None => e == spec_text_err(data, p1) && c == spec_text_errpos(data, p1),
                    Some((ty, p2)) => {
                        if !(p1 < p2 <= data.len()) {
                            false
                        } else if p2 + 8 > data.len() {
                            e == short_read_err(data, p2, 8) && c == p2
                        } else {
                            match spec_prop_value(data, p2 + 8, ty) {
                                None => prop_value_err_matches(data, p2 + 8, ty, e, c),
                                Some((_, p4)) => {
                                    if !(p2 + 8 < p4 <= data.len()) {
                                        false
                                    } else {
                                        props_err_matches(data, p4, e, c)
                                    }
                                },
                            }
                        }
                    },
                }
            }
        },
    }
}

/// Whether `e` and the stopped cursor `c` are the failure of a property
/// value decode of type `ty` at `pos`.
pub open spec fn prop_value_err_matches(
    data: Seq<u8>,
    pos: int,
    ty: Seq<char>,
    e: ParseError,
    c: int,
) -> bool
    decreases data.len() - pos, 0int,
{
    if ty == "BoolProperty"@ {
        e == short_read_err(data, pos, 1) && c == pos
    } else if ty == "ByteProperty"@ {
        match spec_text_at(data, pos) {
            None => e == spec_text_err(data, pos) && c == spec_text_errpos(data, pos),
            Some((kind, p1)) => if is_online_platform(kind) {
                false
            } else {
                e == spec_text_err(data, p1) && c == spec_text_errpos(data, p1)
            },
        }
    } else if ty == "IntProperty"@ || ty == "FloatProperty"@ {
        e == short_read_err(data, pos, 4) && c == pos
    } else if ty == "QWordProperty"@ {
        e == short_read_err(data, pos, 8) && c == pos
    } else if ty == "NameProperty"@ || ty == "StrProperty"@ {
        e == spec_text_err(data, pos) && c == spec_text_errpos(data, pos)
    } else if ty == "ArrayProperty"@ {
        match spec_count_at(data, pos, 4) {
            None => e == spec_count_err(data, pos, 4) && c == spec_count_errpos(data, pos),
            Some((n, p1)) => prop_trees_err_matches(data, p1, n as nat, e, c),
        }
    } else {
        &&& e matches ParseError::UnknownProperty(name)
        &&& name@ == ty
        &&& c == pos
    }
}

/// Whether `e` and the stopped cursor `c` are the failure of the first
/// failing tree among `n` decoded at `pos`.
pub open spec fn prop_trees_err_matches(
    data: Seq<u8>,
    pos: int,
    n: nat,
    e: ParseError,
    c: int,
) -> bool
    decreases data.len() - pos, 1int + n,
{
    if n == 0 {
        false
    } else {
        match spec_props(data, pos) {
            None => props_err_matches(data, pos, e, c),
            Some((_, p1)) => {
                if !(pos < p1 <= data.len()) {
                    false
                } else {
                    prop_trees_err_matches(data, p1, (n - 1) as nat, e, c)
                }
            },
        }
    }
}

/// Whether `e` and the stopped cursor `c` are the failure of a header
/// decode at `pos`.
pub open spec fn header_err_matches(data: Seq<u8>, pos: int, e: ParseError, c: int) -> bool {
    if pos + 4 > data.len() {
        e == short_read_err(data, pos, 4) && c == pos
    } else if pos + 8 > data.len() {
        e == short_read_err(data, pos + 4, 4) && c == pos + 4
    } else {
        let major = le_i32_at(data, pos);
        let minor = le_i32_at(data, pos + 4);
        let has_net = major > 865 && minor > 17;
        if has_net && pos + 12 > data.len() {
            e == short_read_err(data, pos + 8, 4) && c == pos + 8
        } else {
            let p1 = if has_net {
                pos + 12
            } else {
                pos + 8
            };
            match spec_text_at(data, p1) {
                None => e == spec_text_err(data, p1) && c == spec_text_errpos(data, p1),
                Some((_, p2)) => props_err_matches(data, p2, e, c),
            }
        }
    }
}

/// A successful string read lands past its length prefix and inside the
/// buffer.
pub proof fn lemma_text_advance(data: Seq<u8>, pos: int)
    ensures
        spec_text_at(data, pos) matches Some((s, p)) ==> pos + 4 <= p <= data.len(),
{
}

/// Appending an entry to a tree appends its spec-level value.
pub proof fn lemma_props_view_push(s: Seq<(String, HeaderProp)>, x: (String, HeaderProp))
    ensures
        props_view(s.push(x)) == props_view(s) + seq![(x.0@, prop_view(x.1))],
    decreases s.len(),
{
    if s.len() == 0 {
        assert(s =~= Seq::<(String, HeaderProp)>::empty());
        assert(s.push(x)[0] == x);
        assert(s.push(x).skip(1) =~= Seq::<(String, HeaderProp)>::empty());
        assert(props_view(Seq::<(String, HeaderProp)>::empty()) == Seq::<(
            Seq<char>,
            PropValue,
        )>::empty());
        assert(props_view(s.push(x)) =~~= props_view(s) + seq![(x.0@, prop_view(x.1))]);
    } else {
        assert(s.push(x).skip(1) =~= s.skip(1).push(x));
        lemma_props_view_push(s.skip(1), x);
        assert(s.push(x)[0] == s[0]);
        assert(props_view(s.push(x)) =~~= props_view(s) + seq![(x.0@, prop_view(x.1))]);
    }
}

/// Appending a tree to a tree list appends its spec-level value.
pub proof fn lemma_trees_view_push(s: Seq<Vec<(String, HeaderProp)>>, x: Vec<(String, HeaderProp)>)
    ensures
        trees_view(s.push(x)) == trees_view(s) + seq![props_view(x@)],
    decreases s.len(),
{
    if s.len() == 0 {
        assert(s =~= Seq::<Vec<(String, HeaderProp)>>::empty());
        assert(s.push(x)[0] == x);
        assert(s.push(x).skip(1) =~= Seq::<Vec<(String, HeaderProp)>>::empty());
        assert(trees_view(Seq::<Vec<(String, HeaderProp)>>::empty()) == Seq::<
            Seq<(Seq<char>, PropValue)>,
        >::empty());
        assert(trees_view(s.push(x)) =~~= trees_view(s) + seq![props_view(x@)]);
    } else {
        assert(s.push(x).skip(1) =~= s.skip(1).push(x));
        lemma_trees_view_push(s.skip(1), x);
        assert(s.push(x)[0] == s[0]);
        assert(trees_view(s.push(x)) =~~= trees_view(s) + seq![props_view(x@)]);
    }
}

/// Decodes the property tree at the cursor, consuming the terminator.
pub fn parse_properties<'a>(core: &mut CoreParser<'a>) -> (r: Result<
    Vec<(String, HeaderProp)>,
    ParseError,
>)
    requires
        old(core).wf(),
    ensures
        final(core).data@ == old(core).data@,
        final(core).wf(),
        match r {
            Ok(v) => spec_props(old(core).data@, old(core).col as int) == Some(
                (props_view(v@), final(core).col as int),
            ) && old(core).col < final(core).col,
            Err(e) => spec_props(old(core).data@, old(core).col as int) is None
                && props_err_matches(
                old(core).data@,
                old(core).col as int,
                e,
                final(core).col as int,
            ),
        },
    decreases old(core).data@.len() - old(core).col, 1int,
{
    let ghost data = old(core).data@;
    let ghost p0 = old(core).col as int;
    let mut out: Vec<(String, HeaderProp)> = Vec::new();
    loop
        invariant_except_break
            forall|e: ParseError, c: int|
                props_err_matches(data, core.col as int, e, c) ==> #[trigger] props_err_matches(
                    data,
                    p0,
                    e,
                    c,
                ),
            match spec_props(data, core.col as int) {
                Some((rest, pe)) => spec_props(data, p0) == Some(
                    (props_view(out@) + rest, pe),
                ),
                None => spec_props(data, p0) is None,
            },
        invariant
            core.wf(),
            core.data@ == data,
            data == old(core).data@,
            p0 == old(core).col as int,
            old(core).col <= core.col,
        ensures
            core.wf(),
            core.data@ == data,
            old(core).col < core.col,
            spec_props(data, p0) == Some((props_view(out@), core.col as int)),
        decreases data.len() - core.col,
    {
        let ghost c0 = core.col as int;
        let key = match core.parse_text() {
            Ok(k) => k,
            Err(e) => {
                return Err(e);
            },
        };
        proof {
            lemma_text_advance(data, c0);
        }
        if str_eq(key.as_str(), "None") {
            proof {
                assert(spec_props(data, c0) == Some((Seq::<(Seq<char>, PropValue)>::empty(), core.col as int)));
                assert(props_view(out@) + Seq::<(Seq<char>, PropValue)>::empty() =~= props_view(
                    out@,
                ));
            }
            break;
        }
        let ghost c1 = core.col as int;
        let ty = match core.parse_text() {
            Ok(t) => t,
            Err(e) => {
                return Err(e);
            },
        };
        proof {
            lemma_text_advance(data, c1);
        }
        match core.take_bytes(8) {
            Ok(_) => (),
            Err(e) => {
                return Err(e);
            },
        };
        let v = match parse_prop_value(core, &ty) {
            Ok(v) => v,
            Err(e) => {
                return Err(e);
            },
        };
        let ghost prev = out@;
        out.push((key, v));
        proof {
            assert forall|e: ParseError, c: int|
                props_err_matches(data, core.col as int, e, c) implies #[trigger] props_err_matches(
                data,
                p0,
                e,
                c,
            ) by {
                assert(props_err_matches(data, c0, e, c) == props_err_matches(
                    data,
                    core.col as int,
                    e,
                    c,
                ));
            }
            lemma_props_view_push(prev, out@[prev.len() as int]);
            match spec_props(data, core.col as int) {
                Some((rest2, pe)) => {
                    assert(spec_props(data, c0) matches Some((r0, pe0)) && r0 == seq![
                        (out@[prev.len() as int].0@, prop_view(out@[prev.len() as int].1)),
                    ] + rest2 && pe0 == pe);
                    assert(props_view(prev) + (seq![
                        (out@[prev.len() as int].0@, prop_view(out@[prev.len() as int].1)),
                    ] + rest2) =~= props_view(out@) + rest2);
                },
                None => {
                    assert(spec_props(data, c0) is None);
                },
            }
        }
    }
    Ok(out)
}

/// Decodes one property value of the named type at the cursor.
pub fn parse_prop_value<'a>(core: &mut CoreParser<'a>, ty: &String) -> (r: Result<
    HeaderProp,
    ParseError,
>)
    requires
        old(core).wf(),
    ensures
        final(core).data@ == old(core).data@,
        final(core).wf(),
        match r {
            Ok(v) => spec_prop_value(old(core).data@, old(core).col as int, ty@) == Some(
                (prop_view(v), final(core).col as int),
            ) && old(core).col < final(core).col,
            Err(e) => spec_prop_value(old(core).data@, old(core).col as int, ty@) is None
                && prop_value_err_matches(
                old(core).data@,
                old(core).col as int,
                ty@,
                e,
                final(core).col as int,
            ),
        },
    decreases old(core).data@.len() - old(core).col, 0int,
{
    let ghost data = old(core).data@;
    if str_eq(ty.as_str(), "BoolProperty") {
        let b = core.take_u8()?;
        Ok(HeaderProp::Bool(b == 1))
    } else if str_eq(ty.as_str(), "ByteProperty") {
        let kind = core.parse_text()?;
        proof {
            lemma_text_advance(data, old(core).col as int);
        }
        if str_eq(kind.as_str(), "OnlinePlatform_Steam") || str_eq(
            kind.as_str(),
            "OnlinePlatform_PS4",
        ) {
            Ok(HeaderProp::Byte { kind, value: None })
        } else {
            let value = core.parse_text()?;
            Ok(HeaderProp::Byte { kind, value: Some(value) })
        }
    } else if str_eq(ty.as_str(), "IntProperty") {
        let v = core.take_i32()?;
        Ok(HeaderProp::Int(v))
    } else if str_eq(ty.as_str(), "FloatProperty") {
        let v = core.take_u32()?;
        Ok(HeaderProp::Float(v))
    } else if str_eq(ty.as_str(), "QWordProperty") {
        let v = core.take_u64()?;
        Ok(HeaderProp::QWord(v))
    } else if str_eq(ty.as_str(), "NameProperty") {
        let s = core.parse_text()?;
        Ok(HeaderProp::Name(s))
    } else if str_eq(ty.as_str(), "StrProperty") {
        let s = core.parse_text()?;
        Ok(HeaderProp::Str(s))
    } else if str_eq(ty.as_str(), "ArrayProperty") {
        let ghost c0 = old(core).col as int;
        let count = core.list_count(4)?;
        let ghost p1 = core.col as int;
        let mut out: Vec<Vec<(String, HeaderProp)>> = Vec::new();
        let mut k: usize = 0;
        while k < count
            invariant
                core.wf(),
                core.data@ == data,
                data == old(core).data@,
                k <= count,
                p1 <= core.col as int,
                c0 == old(core).col as int,
                spec_count_at(data, c0, 4) == Some((count as int, p1)),
                c0 < p1,
                ty@ == "ArrayProperty"@,
                other_prop_types_excluded(ty@),
                forall|e: ParseError, c: int|
                    prop_trees_err_matches(data, core.col as int, (count - k) as nat, e, c)
                        ==> #[trigger] prop_trees_err_matches(data, p1, count as nat, e, c),
                match spec_prop_trees(data, core.col as int, (count - k) as nat) {
                    Some((rest, pe)) => spec_prop_trees(data, p1, count as nat) == Some(
                        (trees_view(out@) + rest, pe),
                    ),
                    None => spec_prop_trees(data, p1, count as nat) is None,
                },
            decreases count - k,
        {
            let ghost ck = core.col as int;
            match parse_properties(core) {
                Ok(tree) => {
                    let ghost prev = out@;
                    out.push(tree);
                    proof {
                        assert forall|e: ParseError, c: int|
                            prop_trees_err_matches(
                                data,
                                core.col as int,
                                (count - k - 1) as nat,
                                e,
                                c,
                            ) implies #[trigger] prop_trees_err_matches(
                            data,
                            p1,
                            count as nat,
                            e,
                            c,
                        ) by {
                            assert(prop_trees_err_matches(data, ck, (count - k) as nat, e, c)
                                == prop_trees_err_matches(
                                data,
                                core.col as int,
                                (count - k - 1) as nat,
                                e,
                                c,
                            ));
                        }
                        lemma_trees_view_push(prev, out@[prev.len() as int]);
                        match spec_prop_trees(data, core.col as int, (count - k - 1) as nat) {
                            Some((rest2, pe)) => {
                                assert(trees_view(prev) + (seq![props_view(
                                    out@[prev.len() as int]@,
                                )] + rest2) =~= trees_view(out@) + rest2);
                            },
                            None => {
                                assert(spec_prop_trees(data, ck, (count - k) as nat) is None);
                            },
                        }
                    }
                    k = k + 1;
                },
                Err(e) => {
                    proof {
                        assert(spec_prop_trees(data, ck, (count - k) as nat) is None);
                        assert(prop_trees_err_matches(
                            data,
                            ck,
                            (count - k) as nat,
                            e,
                            core.col as int,
                        ));
                        assert(prop_trees_err_matches(
                            data,
                            p1,
                            count as nat,
                            e,
                            core.col as int,
                        ));
                        assert(prop_value_err_matches(data, c0, ty@, e, core.col as int));
                    }
                    return Err(e);
                },
            }
        }
        proof {
            assert(spec_prop_trees(data, core.col as int, 0) == Some(
                (Seq::<Seq<(Seq<char>, PropValue)>>::empty(), core.col as int),
            ));
            assert(trees_view(out@) + Seq::<Seq<(Seq<char>, PropValue)>>::empty() =~= trees_view(
                out@,
            ));
        }
        Ok(HeaderProp::Array(out))
    } else {
        Err(ParseError::UnknownProperty(ty.clone()))
    }
}

/// Decodes the whole header at the cursor.
pub fn parse_header<'a>(core: &mut CoreParser<'a>) -> (r: Result<Header, ParseError>)
    requires
        old(core).wf(),
    ensures
        final(core).data@ == old(core).data@,
        final(core).wf(),
        match r {
            Ok(h) => spec_header_at(old(core).data@, old(core).col as int) == Some(
                (header_view(h), final(core).col as int),
            ),
            Err(e) => spec_header_at(old(core).data@, old(core).col as int) is None
                && header_err_matches(
                old(core).data@,
                old(core).col as int,
                e,
                final(core).col as int,
            ),
        },
{
    let ghost data = old(core).data@;
    let major_version = core.take_i32()?;
    let minor_version = core.take_i32()?;
    let net_version: Option<i32> = if major_version > 865 && minor_version > 17 {
        Some(core.take_i32()?)
    } else {
        None
    };
    let ghost p1 = core.col as int;
    let game_type = core.parse_text()?;
    proof {
        lemma_text_advance(data, p1);
    }
    let properties = parse_properties(core)?;
    Ok(Header { major_version, minor_version, net_version, game_type, properties })
}

} // verus!
