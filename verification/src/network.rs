//! The network stream: class graph resolution and per-frame decoding.
//!
//! The class-net-cache lists, per class, the replicated properties the wire
//! refers to by stream id, and links each entry to a parent entry among its
//! predecessors. `build_class_graph` flattens those links: a class's
//! property cache is the union of its own entries with its transitive
//! parents', the child winning on a duplicated stream id — the law
//! `lemma_net_cache_union` states exactly that. The frame decoder then walks
//! the bit stream, tracking which actor channels are open and dispatching
//! each update through the flattened cache to an attribute decoder.

use vstd::prelude::*;

use crate::bits::BitReader;
use crate::errors::NetworkError;
use crate::models::{AttributeValue, CacheProp, ClassIndex, ClassNetCache, Header, HeaderProp,
    NetworkFrame, NetworkFrames, NewActor, Rotation, Trajectory, UpdatedAttribute, Vector3i};
use crate::parser::{net_cache_view, ClassNetCacheModel, ReplayBody};
use crate::tables::{attr_tag, object_class, spawn_trajectory, spec_attr_tag, AttrTag,
    SpawnTrajectory};
use crate::text::str_eq;
use vstd::arithmetic::power2::{lemma2_to64, lemma_pow2_unfold, pow2};

verus! {

/// The first integer property of the given name, searching in document
/// order; a property of the name with another payload is passed over.
pub open spec fn spec_int_prop(props: Seq<(String, HeaderProp)>, name: Seq<char>) -> Option<int>
    decreases props.len(),
{
    if props.len() == 0 {
        None
    } else if props[0].0@ == name && props[0].1 is Int {
        match props[0].1 {
            HeaderProp::Int(v) => Some(v as int),
            _ => None,
        }
    } else {
        spec_int_prop(props.skip(1), name)
    }
}

/// Looks up an integer header property by name.
pub fn find_int_property(header: &Header, name: &str) -> (r: Option<i32>)
    ensures
        match r {
            Some(v) => spec_int_prop(header.properties@, name@) == Some(v as int),
            None => spec_int_prop(header.properties@, name@) is None,
        },
{
    let ghost props = header.properties@;
    let n = header.properties.len();
    let mut i: usize = 0;
    proof {
        assert(props.skip(0) =~= props);
    }
    while i < n
        invariant
            props == header.properties@,
            n == props.len(),
            i <= n,
            spec_int_prop(props, name@) == spec_int_prop(props.skip(i as int), name@),
        decreases n - i,
    {
        let entry = &header.properties[i];
        let is_match = str_eq(entry.0.as_str(), name);
        proof {
            assert(props.skip(i as int)[0] == props[i as int]);
            assert(props.skip(i as int).skip(1) =~= props.skip(i + 1));
        }
        if is_match {
            match &entry.1 {
                HeaderProp::Int(v) => {
                    return Some(*v);
                },
                _ => (),
            }
        }
        i = i + 1;
    }
    proof {
        assert(props.skip(n as int) =~= Seq::<(String, HeaderProp)>::empty());
    }
    None
}

/// The map an association list denotes: later entries override earlier ones
/// with the same stream id.
pub open spec fn assoc_map(s: Seq<CacheProp>) -> Map<int, int>
    decreases s.len(),
{
    if s.len() == 0 {
        Map::empty()
    } else {
        assoc_map(s.drop_last()).insert(s.last().stream_id as int, s.last().object_ind as int)
    }
}

/// Concatenating association lists unions their maps, the right side
/// winning.
pub proof fn lemma_assoc_append(a: Seq<CacheProp>, b: Seq<CacheProp>)
    ensures
        assoc_map(a + b) == assoc_map(a).union_prefer_right(assoc_map(b)),
    decreases b.len(),
{
    if b.len() == 0 {
        assert(a + b =~= a);
        assert(assoc_map(a).union_prefer_right(Map::empty()) =~= assoc_map(a));
    } else {
        lemma_assoc_append(a, b.drop_last());
        assert((a + b).drop_last() =~= a + b.drop_last());
        assert((a + b).last() == b.last());
        assert(assoc_map(a).union_prefer_right(assoc_map(b.drop_last())).insert(
            b.last().stream_id as int,
            b.last().object_ind as int,
        ) =~= assoc_map(a).union_prefer_right(assoc_map(b)));
    }
}

/// The nearest predecessor at or before `j` whose `cache_id` is `pid`.
pub open spec fn spec_find_parent(entries: Seq<ClassNetCacheModel>, pid: int, j: int) -> Option<
    int,
>
    decreases j + 1,
{
    if j < 0 {
        None
    } else if entries[j].cache_id == pid {
        Some(j)
    } else {
        spec_find_parent(entries, pid, j - 1)
    }
}

/// The flattened property cache of the entry at `i`: its own entries over
/// its parent's flattened cache, the child winning.
pub open spec fn flat_map(entries: Seq<ClassNetCacheModel>, i: int) -> Map<int, int>
    decreases i,
{
    if !(0 <= i < entries.len()) {
        Map::empty()
    } else {
        let own = assoc_map(entries[i].properties);
        if entries[i].parent_id == 0 {
            own
        } else {
            match spec_find_parent(entries, entries[i].parent_id, i - 1) {
                None => own,
                Some(j) => if 0 <= j < i {
                    flat_map(entries, j).union_prefer_right(own)
                } else {
                    own
                },
            }
        }
    }
}

/// The inheritance chain of the entry at `i`, child first.
pub open spec fn cache_chain(entries: Seq<ClassNetCacheModel>, i: int) -> Seq<int>
    decreases i,
{
    if !(0 <= i < entries.len()) {
        Seq::empty()
    } else if entries[i].parent_id == 0 {
        seq![i]
    } else {
        match spec_find_parent(entries, entries[i].parent_id, i - 1) {
            None => seq![i],
            Some(j) => if 0 <= j < i {
                seq![i] + cache_chain(entries, j)
            } else {
                seq![i]
            },
        }
    }
}

/// Walks a chain child-first and returns the first entry's own value for
/// the stream id.
pub open spec fn chain_value(entries: Seq<ClassNetCacheModel>, ch: Seq<int>, sid: int) -> Option<
    int,
>
    decreases ch.len(),
{
    if ch.len() == 0 {
        None
    } else {
        let own = assoc_map(entries[ch[0]].properties);
        if own.contains_key(sid) {
            Some(own[sid])
        } else {
            chain_value(entries, ch.skip(1), sid)
        }
    }
}

/// The flattened cache of a class is exactly the union of its own entries
/// with those of all its transitive parents, the child shadowing an
/// ancestor on a duplicated stream id: a stream id is present exactly when
/// some class on the inheritance chain lists it, and its value is the one
/// listed by the nearest such class, walking child first.
pub proof fn lemma_net_cache_union(entries: Seq<ClassNetCacheModel>, i: int, sid: int)
    requires
        0 <= i < entries.len(),
    ensures
        flat_map(entries, i).contains_key(sid) <==> chain_value(
            entries,
            cache_chain(entries, i),
            sid,
        ) is Some,
        flat_map(entries, i).contains_key(sid) ==> Some(flat_map(entries, i)[sid]) == chain_value(
            entries,
            cache_chain(entries, i),
            sid,
        ),
    decreases i,
{
    let own = assoc_map(entries[i].properties);
    let ch = cache_chain(entries, i);
    assert(ch[0] == i);
    assert(chain_value(entries, Seq::<int>::empty(), sid) is None);
    if entries[i].parent_id == 0 {
        assert(ch =~= seq![i]);
        assert(ch.skip(1) =~= Seq::<int>::empty());
        assert(chain_value(entries, ch, sid) == (if own.contains_key(sid) {
            Some(own[sid])
        } else {
            chain_value(entries, ch.skip(1), sid)
        }));
    } else {
        match spec_find_parent(entries, entries[i].parent_id, i - 1) {
            None => {
                assert(ch =~= seq![i]);
                assert(ch.skip(1) =~= Seq::<int>::empty());
                assert(chain_value(entries, ch, sid) == (if own.contains_key(sid) {
                    Some(own[sid])
                } else {
                    chain_value(entries, ch.skip(1), sid)
                }));
            },
            Some(j) => {
                if 0 <= j < i {
                    lemma_net_cache_union(entries, j, sid);
                    assert(ch =~= seq![i] + cache_chain(entries, j));
                    assert(ch.skip(1) =~= cache_chain(entries, j));
                    assert(chain_value(entries, ch, sid) == (if own.contains_key(sid) {
                        Some(own[sid])
                    } else {
                        chain_value(entries, ch.skip(1), sid)
                    }));
                } else {
                    assert(ch =~= seq![i]);
                    assert(ch.skip(1) =~= Seq::<int>::empty());
                    assert(chain_value(entries, ch, sid) == (if own.contains_key(sid) {
                        Some(own[sid])
                    } else {
                        chain_value(entries, ch.skip(1), sid)
                    }));
                }
            },
        }
    }
}


/// Whether every property in `props` from index `k` on resolves: its
/// object index is in range and names a registry entry with a supported
/// shape.
pub open spec fn props_resolvable_from(
    props: Seq<CacheProp>,
    objects: Seq<Seq<char>>,
    k: int,
) -> bool
    decreases props.len() - k,
{
    if k >= props.len() {
        true
    } else {
        let p = props[k];
        &&& 0 <= p.object_ind < objects.len()
        &&& spec_attr_tag(objects[p.object_ind as int]) is Some
        &&& props_resolvable_from(props, objects, k + 1)
    }
}

/// Whether `e` is the first resolution error among `props` from index `k`.
pub open spec fn prop_resolve_err_matches(
    props: Seq<CacheProp>,
    objects: Seq<Seq<char>>,
    k: int,
    e: NetworkError,
) -> bool
    decreases props.len() - k,
{
    if k >= props.len() {
        false
    } else {
        let p = props[k];
        if !(0 <= p.object_ind < objects.len()) {
            e == NetworkError::ObjectIdOutOfRange(p.object_ind)
        } else if spec_attr_tag(objects[p.object_ind as int]) is None {
            &&& e matches NetworkError::UnimplementedAttribute(name)
            &&& name@ == objects[p.object_ind as int]
        } else {
            prop_resolve_err_matches(props, objects, k + 1, e)
        }
    }
}

/// Whether every cache entry from index `i` on resolves.
pub open spec fn graph_resolvable_from(
    entries: Seq<ClassNetCacheModel>,
    objects: Seq<Seq<char>>,
    i: int,
) -> bool
    decreases entries.len() - i,
{
    if i >= entries.len() {
        true
    } else {
        &&& 0 <= entries[i].object_ind < objects.len()
        &&& props_resolvable_from(entries[i].properties, objects, 0)
        &&& graph_resolvable_from(entries, objects, i + 1)
    }
}

/// Whether `e` is the first resolution error among the cache entries from
/// index `i`, scanning each entry's own index and then its properties in
/// document order.
pub open spec fn graph_err_matches(
    entries: Seq<ClassNetCacheModel>,
    objects: Seq<Seq<char>>,
    i: int,
    e: NetworkError,
) -> bool
    decreases entries.len() - i,
{
    if i >= entries.len() {
        false
    } else if !(0 <= entries[i].object_ind < objects.len()) {
        e == NetworkError::ObjectIdOutOfRange(entries[i].object_ind as i32)
    } else if !props_resolvable_from(entries[i].properties, objects, 0) {
        prop_resolve_err_matches(entries[i].properties, objects, 0, e)
    } else {
        graph_err_matches(entries, objects, i + 1, e)
    }
}


/// The first integer property of the given name, over the header's
/// spec-level property models.
pub open spec fn model_int_prop(
    props: Seq<(Seq<char>, crate::header::PropValue)>,
    name: Seq<char>,
) -> Option<int>
    decreases props.len(),
{
    if props.len() == 0 {
        None
    } else if props[0].0 == name && props[0].1 is Int {
        match props[0].1 {
            crate::header::PropValue::Int(v) => Some(v as int),
            _ => None,
        }
    } else {
        model_int_prop(props.skip(1), name)
    }
}

/// The exec-level and model-level property lookups agree.
pub proof fn lemma_int_prop_view(props: Seq<(String, HeaderProp)>, name: Seq<char>)
    ensures
        spec_int_prop(props, name) == model_int_prop(crate::header::props_view(props), name),
    decreases props.len(),
{
    if props.len() == 0 {
        assert(crate::header::props_view(props) =~= Seq::<
            (Seq<char>, crate::header::PropValue),
        >::empty());
    } else {
        lemma_int_prop_view(props.skip(1), name);
        assert(crate::header::props_view(props).skip(1) =~= crate::header::props_view(
            props.skip(1),
        ));
        assert(crate::header::props_view(props)[0] == (
            props[0].0@,
            crate::header::prop_view(props[0].1),
        ));
        assert(crate::header::prop_view(props[0].1) is Int <==> props[0].1 is Int);
    }
}

/// The staged outcome of a network decode: first the frame bound from the
/// header's `NumFrames` (or, absent one, the remaining bytes over the
/// eight-byte-per-frame floor), then the machine bound on the bit cursor,
/// then class-graph resolution; once all pass, what the frame walk owes.
pub open spec fn net_parse_post(
    props: Seq<(Seq<char>, crate::header::PropValue)>,
    net_data: Seq<u8>,
    objects: Seq<Seq<char>>,
    entries: Seq<ClassNetCacheModel>,
    r: Result<NetworkFrames, NetworkError>,
) -> bool {
    match model_int_prop(props, "NumFrames"@) {
        Some(n) => {
            if n < 0 || n > net_data.len() {
                r matches Err(e) && e == NetworkError::TooManyFrames(n as i32)
            } else {
                net_stream_post(net_data, objects, entries, n, r)
            }
        },
        None => net_stream_post(net_data, objects, entries, (net_data.len() / 8) as int, r),
    }
}

/// The outcome of a network decode past the frame-bound check.
pub open spec fn net_stream_post(
    net_data: Seq<u8>,
    objects: Seq<Seq<char>>,
    entries: Seq<ClassNetCacheModel>,
    bound: int,
    r: Result<NetworkFrames, NetworkError>,
) -> bool {
    if net_data.len() >= 0x1000_0000 {
        r matches Err(e) && e == NetworkError::StreamTooLarge(net_data.len() as usize)
    } else if !graph_resolvable_from(entries, objects, 0) {
        r matches Err(e) && graph_err_matches(entries, objects, 0, e)
    } else {
        &&& (r matches Ok(f) ==> f.frames@.len() <= bound)
        &&& (r matches Ok(f) ==> new_actors_in_range(f.frames@, objects.len() as int))
        &&& (r matches Ok(f) ==> updates_resolved(f.frames@, objects))
        &&& (r matches Ok(f) ==> actors_introduced(f.frames@))
        &&& (r matches Ok(f) ==> (f.frames@.len() > 0 ==> f.frames@[0].time_bits
            == crate::bits::bits_val(net_data, 0, 32) && f.frames@[0].delta_bits
            == crate::bits::bits_val(net_data, 32, 32)))
        &&& (8 * net_data.len() < 64 ==> (r matches Ok(f) && f.frames@.len() == 0))
        &&& (bound == 0 ==> (r matches Ok(f) && f.frames@.len() == 0))
        &&& (r matches Ok(f) ==> (bound > 0 && 8 * net_data.len() >= 64 ==> f.frames@.len() > 0))
    }
}



/// Every spawned actor's object id indexes the object table.
pub open spec fn new_actors_in_range(frames: Seq<NetworkFrame>, nobj: int) -> bool {
    forall|i: int, j: int|
        0 <= i < frames.len() && 0 <= j < frames[i].new_actors@.len() ==> 0 <= (
        #[trigger] frames[i].new_actors@[j]).object_id < nobj
}


/// Every emitted update names a property resolved through the flattened
/// class cache: its object id indexes the object table and that object
/// names an attribute-registry entry.
pub open spec fn updates_resolved(frames: Seq<NetworkFrame>, objects: Seq<Seq<char>>) -> bool {
    forall|i: int, j: int|
        0 <= i < frames.len() && 0 <= j < frames[i].updated_actors@.len() ==> {
            let u = #[trigger] frames[i].updated_actors@[j];
            0 <= u.object_id < objects.len() && spec_attr_tag(objects[u.object_id as int]) is Some
        }
}


/// An actor id spawned by one of the frames up to and including `i`.
pub open spec fn spawned_by(frames: Seq<NetworkFrame>, i: int, id: i32) -> bool {
    exists|k: int, m: int|
        0 <= k <= i && k < frames.len() && 0 <= m < frames[k].new_actors@.len() && (
        #[trigger] frames[k].new_actors@[m]).actor_id == id
}

/// An actor id spawned anywhere in the frames.
pub open spec fn id_spawned_any(frames: Seq<NetworkFrame>, id: i32) -> bool {
    spawned_by(frames, frames.len() - 1, id)
}

/// An actor id spawned in the given in-progress frame.
pub open spec fn in_news(news: Seq<NewActor>, id: i32) -> bool {
    exists|m: int| 0 <= m < news.len() && (#[trigger] news[m]).actor_id == id
}

/// The stream never touches a channel it has not opened: every updated or
/// deleted actor id names an actor spawned in the same or an earlier
/// frame.
pub open spec fn actors_introduced(frames: Seq<NetworkFrame>) -> bool {
    &&& forall|i: int, j: int|
        0 <= i < frames.len() && 0 <= j < frames[i].updated_actors@.len() ==> spawned_by(
            frames,
            i,
            (#[trigger] frames[i].updated_actors@[j]).actor_id,
        )
    &&& forall|i: int, j: int|
        0 <= i < frames.len() && 0 <= j < frames[i].deleted_actors@.len() ==> spawned_by(
            frames,
            i,
            #[trigger] frames[i].deleted_actors@[j],
        )
}

/// Whether the staged network decode specification admits a failing
/// outcome: some bound or resolution stage fails, or a frame walk is
/// actually attempted (a nonzero bound over a stream of at least one
/// frame's header of bits).
pub open spec fn net_decode_may_fail(
    props: Seq<(Seq<char>, crate::header::PropValue)>,
    net_data: Seq<u8>,
    objects: Seq<Seq<char>>,
    entries: Seq<ClassNetCacheModel>,
) -> bool {
    match model_int_prop(props, "NumFrames"@) {
        Some(n) => if n < 0 || n > net_data.len() {
            true
        } else {
            net_stream_may_fail(net_data, objects, entries, n)
        },
        None => net_stream_may_fail(net_data, objects, entries, (net_data.len() / 8) as int),
    }
}

/// Whether the decode past the frame-bound check admits a failing outcome.
pub open spec fn net_stream_may_fail(
    net_data: Seq<u8>,
    objects: Seq<Seq<char>>,
    entries: Seq<ClassNetCacheModel>,
    bound: int,
) -> bool {
    if net_data.len() >= 0x1000_0000 {
        true
    } else if !graph_resolvable_from(entries, objects, 0) {
        true
    } else {
        8 * net_data.len() >= 64 && bound != 0
    }
}

/// A class as the frame decoder sees it: identity, the flattened property
/// cache (later entries shadow earlier ones), the attribute shape of each
/// property, and the bound the wire's stream ids stay under.
#[derive(Debug, Clone, PartialEq)]
pub struct ClassInfo {
    pub object_ind: i32,
    pub cache_id: i32,
    pub parent_id: i32,
    pub props: Vec<CacheProp>,
    pub tags: Vec<AttrTag>,
    pub max_stream_id: u32,
}

/// What the frame decoder relies on about a built class: the tags align
/// with the properties, every property's object index names a registry
/// entry with a supported shape, and stream ids stay under the bound.
pub open spec fn class_info_basic(info: ClassInfo, objects: Seq<Seq<char>>) -> bool {
    &&& info.tags@.len() == info.props@.len()
    &&& info.max_stream_id >= 1
    &&& forall|j: int|
        0 <= j < info.props@.len() ==> (#[trigger] info.props@[j]).stream_id
            < info.max_stream_id
    &&& forall|j: int|
        0 <= j < info.props@.len() ==> 0 <= (#[trigger] info.props@[j]).object_ind
            < objects.len() && spec_attr_tag(objects[info.props@[j].object_ind as int]) == Some(
            info.tags@[j],
        )
}

/// What `build_class_graph` guarantees of the entry at `i`: identity fields
/// copied from the cache entry, and the flattened association list denoting
/// exactly the inherited-and-shadowed map of the entry.
pub open spec fn class_info_ok(
    info: ClassInfo,
    entries: Seq<ClassNetCacheModel>,
    objects: Seq<Seq<char>>,
    i: int,
) -> bool {
    &&& info.object_ind as int == entries[i].object_ind
    &&& info.cache_id as int == entries[i].cache_id
    &&& info.parent_id as int == entries[i].parent_id
    &&& assoc_map(info.props@) == flat_map(entries, i)
    &&& class_info_basic(info, objects)
}

fn copy_props(src: &Vec<CacheProp>) -> (r: Vec<CacheProp>)
    ensures
        r@ == src@,
{
    let mut out: Vec<CacheProp> = Vec::new();
    let n = src.len();
    let mut i: usize = 0;
    while i < n
        invariant
            n == src@.len(),
            i <= n,
            out@ =~= src@.take(i as int),
        decreases n - i,
    {
        out.push(src[i]);
        proof {
            assert(out@ =~= src@.take(i + 1));
        }
        i = i + 1;
    }
    proof {
        assert(src@.take(n as int) =~= src@);
    }
    out
}

fn copy_tags(src: &Vec<AttrTag>) -> (r: Vec<AttrTag>)
    ensures
        r@ == src@,
{
    let mut out: Vec<AttrTag> = Vec::new();
    let n = src.len();
    let mut i: usize = 0;
    while i < n
        invariant
            n == src@.len(),
            i <= n,
            out@ =~= src@.take(i as int),
        decreases n - i,
    {
        out.push(src[i]);
        proof {
            assert(out@ =~= src@.take(i + 1));
        }
        i = i + 1;
    }
    proof {
        assert(src@.take(n as int) =~= src@);
    }
    out
}

/// Resolves the class-net-cache into flattened per-class caches, in
/// document order. Fails when an object index runs past the object table,
/// or a referenced property has no supported decoder in the registry.
pub fn build_class_graph(objects: &Vec<String>, net_cache: &Vec<ClassNetCache>) -> (r: Result<
    Vec<ClassInfo>,
    NetworkError,
>)
    ensures
        match r {
            Ok(infos) => graph_resolvable_from(net_cache_view(net_cache@), objects.deep_view(), 0)
                && infos@.len() == net_cache@.len() && forall|i: int|
                0 <= i < infos@.len() ==> #[trigger] class_info_ok(
                    infos@[i],
                    net_cache_view(net_cache@),
                    objects.deep_view(),
                    i,
                ),
            Err(e) => !graph_resolvable_from(net_cache_view(net_cache@), objects.deep_view(), 0)
                && graph_err_matches(net_cache_view(net_cache@), objects.deep_view(), 0, e),
        },
{
    let ghost entries = net_cache_view(net_cache@);
    let n = net_cache.len();
    let mut infos: Vec<ClassInfo> = Vec::new();
    let mut i: usize = 0;
    while i < n
        invariant
            n == net_cache@.len(),
            entries == net_cache_view(net_cache@),
            entries.len() == n,
            i <= n,
            infos@.len() == i,
            forall|k: int|
                0 <= k < i ==> #[trigger] class_info_ok(
                    infos@[k],
                    entries,
                    objects.deep_view(),
                    k,
                ),
            graph_resolvable_from(entries, objects.deep_view(), 0) == graph_resolvable_from(
                entries,
                objects.deep_view(),
                i as int,
            ),
            forall|e: NetworkError|
                graph_err_matches(entries, objects.deep_view(), i as int, e)
                    ==> #[trigger] graph_err_matches(entries, objects.deep_view(), 0, e),
        decreases n - i,
    {
        let entry = &net_cache[i];
        if entry.object_ind < 0 || entry.object_ind as usize >= objects.len() {
            proof {
                let e = NetworkError::ObjectIdOutOfRange(entry.object_ind);
                assert(!graph_resolvable_from(entries, objects.deep_view(), i as int));
                assert(!graph_resolvable_from(entries, objects.deep_view(), 0));
                assert(graph_err_matches(entries, objects.deep_view(), i as int, e));
                assert(graph_err_matches(entries, objects.deep_view(), 0, e));
            }
            return Err(NetworkError::ObjectIdOutOfRange(entry.object_ind));
        }
        // Find the parent among earlier entries, nearest first.
        let mut parent: Option<usize> = None;
        if entry.parent_id != 0 {
            let mut j: usize = i;
            while j > 0 && parent.is_none()
                invariant
                    j <= i,
                    infos@.len() == i,
                    entries.len() == n,
                    i < n,
                    entries == net_cache_view(net_cache@),
                    n == net_cache@.len(),
                    forall|k: int|
                        0 <= k < i ==> #[trigger] class_info_ok(
                            infos@[k],
                            entries,
                            objects.deep_view(),
                            k,
                        ),
                    entry.parent_id as int == entries[i as int].parent_id,
                    match parent {
                        Some(pj) => pj < i && spec_find_parent(
                            entries,
                            entries[i as int].parent_id,
                            i - 1,
                        ) == Some(pj as int),
                        None => spec_find_parent(entries, entries[i as int].parent_id, i - 1)
                            == spec_find_parent(entries, entries[i as int].parent_id, j - 1),
                    },
                decreases j,
            {
                j = j - 1;
                proof {
                    assert(class_info_ok(infos@[j as int], entries, objects.deep_view(), j as int));
                }
                if infos[j].cache_id == entry.parent_id {
                    parent = Some(j);
                    proof {
                        assert(spec_find_parent(entries, entries[i as int].parent_id, j as int)
                            == Some(j as int));
                    }
                }
            }
            proof {
                if parent is None {
                    assert(spec_find_parent(entries, entries[i as int].parent_id, -1) is None);
                }
            }
        }
        proof {
            match parent {
                Some(j) => {
                    assert(class_info_ok(
                        infos@[j as int],
                        entries,
                        objects.deep_view(),
                        j as int,
                    ));
                },
                None => {},
            }
        }
        let (mut props, mut tags): (Vec<CacheProp>, Vec<AttrTag>) = match parent {
            Some(j) => (copy_props(&infos[j].props), copy_tags(&infos[j].tags)),
            None => (Vec::new(), Vec::new()),
        };
        let ghost inherited = props@;
        let m = entry.properties.len();
        let mut k: usize = 0;
        while k < m
            invariant
                m == entry.properties@.len(),
                k <= m,
                props@ =~= inherited + entry.properties@.take(k as int),
                tags@.len() == props@.len(),
                entries == net_cache_view(net_cache@),
                n == net_cache@.len(),
                i < n,
                entry == net_cache@[i as int],
                forall|q: int|
                    inherited.len() <= q < props@.len() ==> props@[q]
                        == entry.properties@[q - inherited.len()],
                forall|q: int|
                    0 <= q < props@.len() ==> 0 <= (#[trigger] props@[q]).object_ind
                        < objects.deep_view().len() && spec_attr_tag(
                        objects.deep_view()[props@[q].object_ind as int],
                    ) == Some(tags@[q]),
                forall|q: int|
                    0 <= q < inherited.len() ==> props@[q] == inherited[q],
                0 <= entry.object_ind as int,
                (entry.object_ind as int) < objects.deep_view().len(),
                entries[i as int].properties == entry.properties@,
                graph_resolvable_from(entries, objects.deep_view(), 0) == graph_resolvable_from(
                    entries,
                    objects.deep_view(),
                    i as int,
                ),
                forall|e: NetworkError|
                    graph_err_matches(entries, objects.deep_view(), i as int, e)
                        ==> #[trigger] graph_err_matches(entries, objects.deep_view(), 0, e),
                props_resolvable_from(entry.properties@, objects.deep_view(), 0)
                    == props_resolvable_from(entry.properties@, objects.deep_view(), k as int),
                forall|e: NetworkError|
                    prop_resolve_err_matches(entry.properties@, objects.deep_view(), k as int, e)
                        ==> #[trigger] prop_resolve_err_matches(
                        entry.properties@,
                        objects.deep_view(),
                        0,
                        e,
                    ),
            decreases m - k,
        {
            let p = entry.properties[k];
            if p.object_ind < 0 || p.object_ind as usize >= objects.len() {
                proof {
                    let e = NetworkError::ObjectIdOutOfRange(p.object_ind);
                    assert(prop_resolve_err_matches(
                        entry.properties@,
                        objects.deep_view(),
                        k as int,
                        e,
                    ));
                    assert(!props_resolvable_from(entry.properties@, objects.deep_view(), k as int));
                    assert(!props_resolvable_from(entry.properties@, objects.deep_view(), 0));
                    assert(!graph_resolvable_from(entries, objects.deep_view(), i as int));
                    assert(!graph_resolvable_from(entries, objects.deep_view(), 0));
                    assert(graph_err_matches(entries, objects.deep_view(), i as int, e));
                    assert(graph_err_matches(entries, objects.deep_view(), 0, e));
                }
                return Err(NetworkError::ObjectIdOutOfRange(p.object_ind));
            }
            let name = &objects[p.object_ind as usize];
            let tag_opt = attr_tag(name.as_str());
            proof {
                assert(objects.deep_view()[p.object_ind as int] == objects@[p.object_ind as int]@);
            }
            let tag = match tag_opt {
                Some(t) => t,
                None => {
                    let err_name = name.clone();
                    proof {
                        let e = NetworkError::UnimplementedAttribute(err_name);
                        assert(prop_resolve_err_matches(
                            entry.properties@,
                            objects.deep_view(),
                            k as int,
                            e,
                        ));
                        assert(!props_resolvable_from(
                            entry.properties@,
                            objects.deep_view(),
                            k as int,
                        ));
                        assert(!props_resolvable_from(entry.properties@, objects.deep_view(), 0));
                        assert(!graph_resolvable_from(entries, objects.deep_view(), i as int));
                        assert(!graph_resolvable_from(entries, objects.deep_view(), 0));
                        assert(graph_err_matches(entries, objects.deep_view(), i as int, e));
                        assert(graph_err_matches(entries, objects.deep_view(), 0, e));
                    }
                    return Err(NetworkError::UnimplementedAttribute(err_name));
                },
            };
            props.push(p);
            tags.push(tag);
            proof {
                assert(props@ =~= inherited + entry.properties@.take(k + 1));
                assert(props_resolvable_from(entry.properties@, objects.deep_view(), k as int)
                    == props_resolvable_from(entry.properties@, objects.deep_view(), k + 1));
                assert forall|e: NetworkError|
                    prop_resolve_err_matches(entry.properties@, objects.deep_view(), k + 1, e)
                        implies #[trigger] prop_resolve_err_matches(
                    entry.properties@,
                    objects.deep_view(),
                    0,
                    e,
                ) by {
                    assert(prop_resolve_err_matches(
                        entry.properties@,
                        objects.deep_view(),
                        k as int,
                        e,
                    ) == prop_resolve_err_matches(entry.properties@, objects.deep_view(), k + 1, e));
                }
            }
            k = k + 1;
        }
        proof {
            assert(entry.properties@.take(m as int) =~= entry.properties@);
        }
        // The bound the wire's stream ids stay under.
        let mut max_sid: u32 = 1;
        let plen = props.len();
        let mut q: usize = 0;
        while q < plen
            invariant
                plen == props@.len(),
                q <= plen,
                max_sid >= 1,
                forall|t: int| 0 <= t < q ==> (#[trigger] props@[t]).stream_id < max_sid,
            decreases plen - q,
        {
            let sid = props[q].stream_id;
            if sid >= 0 {
                let cand = (sid as u32) + 1;
                if cand > max_sid {
                    max_sid = cand;
                }
            }
            q = q + 1;
        }
        let info = ClassInfo {
            object_ind: entry.object_ind,
            cache_id: entry.cache_id,
            parent_id: entry.parent_id,
            props,
            tags,
            max_stream_id: max_sid,
        };
        let ghost prev = infos@;
        infos.push(info);
        proof {
            assert(props_resolvable_from(entry.properties@, objects.deep_view(), m as int));
            assert(props_resolvable_from(entry.properties@, objects.deep_view(), 0));
            assert(graph_resolvable_from(entries, objects.deep_view(), i as int)
                == graph_resolvable_from(entries, objects.deep_view(), i + 1));
            assert forall|e: NetworkError|
                graph_err_matches(entries, objects.deep_view(), i + 1, e)
                    implies #[trigger] graph_err_matches(entries, objects.deep_view(), 0, e) by {
                assert(graph_err_matches(entries, objects.deep_view(), i as int, e)
                    == graph_err_matches(entries, objects.deep_view(), i + 1, e));
            }
            let entry_m = entries[i as int];
            assert(entry_m.properties == entry.properties@);
            lemma_assoc_append(inherited, entry.properties@);
            match parent {
                Some(j) => {
                    assert(class_info_ok(infos@[j as int], entries, objects.deep_view(), j as int));
                    assert(assoc_map(inherited) == flat_map(entries, j as int));
                },
                None => {
                    assert(inherited =~= Seq::<CacheProp>::empty());
                    assert(assoc_map(inherited) =~= Map::<int, int>::empty());
                    assert(Map::<int, int>::empty().union_prefer_right(
                        assoc_map(entry.properties@),
                    ) =~= assoc_map(entry.properties@));
                },
            }
            assert(infos@[i as int].props@ == inherited + entry.properties@);
            assert(class_info_ok(infos@[i as int], entries, objects.deep_view(), i as int));
            assert(forall|k2: int|
                0 <= k2 < i ==> #[trigger] class_info_ok(
                    infos@[k2],
                    entries,
                    objects.deep_view(),
                    k2,
                ));
        }
        i = i + 1;
    }
    Ok(infos)
}

/// The attribute variant each payload shape decodes to.
pub open spec fn tag_shape(tag: AttrTag, v: AttributeValue) -> bool {
    match tag {
        AttrTag::Boolean => v is Boolean,
        AttrTag::Byte => v is Byte,
        AttrTag::Int => v is Int,
        AttrTag::Float => v is FloatBits,
        AttrTag::Text => v is Text,
        AttrTag::Enumeration => v is Enumeration,
        AttrTag::Flagged => v is Flagged,
        AttrTag::QWord => v is QWord,
        AttrTag::Location => v is Location,
        AttrTag::RigidBody => v is RigidBody,
        AttrTag::Demolish => v is Demolish,
        AttrTag::Pickup => v is Pickup,
        AttrTag::UniqueId => v is UniqueId,
        AttrTag::PartyLeader => v is PartyLeader,
        AttrTag::CamSettings => v is CamSettings,
        AttrTag::Loadout => v is Loadout,
        AttrTag::LoadoutOnline => v is LoadoutOnline,
        AttrTag::TeamLoadout => v is TeamLoadout,
        AttrTag::LoadoutsOnline => v is LoadoutsOnline,
        AttrTag::Reservation => v is Reservation,
        AttrTag::ClubColors => v is ClubColors,
        AttrTag::TeamPaint => v is TeamPaint,
        AttrTag::MusicStinger => v is MusicStinger,
        AttrTag::DamageState => v is DamageState,
        AttrTag::AppliedDamage => v is AppliedDamage,
        AttrTag::Explosion => v is Explosion,
        AttrTag::ExtendedExplosion => v is ExtendedExplosion,
        AttrTag::Welded => v is WeldedInfo,
        AttrTag::PrivateMatchSettings => v is PrivateMatchSettings,
        AttrTag::GameMode => v is GameMode,
    }
}


/// A vector decoded at bit `pos`: a five-bit width `nb`, then three
/// magnitudes of `nb + 2` bits each, de-biased to signed; `None` when the
/// bits run out or the width is one the engine never writes.
pub open spec fn spec_vector_at(data: Seq<u8>, pos: int) -> Option<(Vector3i, int)> {
    if pos + 5 > 8 * data.len() {
        None
    } else {
        let nb = crate::bits::bits_val(data, pos, 5);
        if nb > 30 {
            None
        } else {
            let w = nb + 2;
            if pos + 5 + 3 * w > 8 * data.len() {
                None
            } else {
                let bias = pow2((nb + 1) as nat) as int;
                Some(
                    (
                        Vector3i {
                            x: (crate::bits::bits_val(data, pos + 5, w as nat) - bias) as i32,
                            y: (crate::bits::bits_val(data, pos + 5 + w, w as nat) - bias) as i32,
                            z: (crate::bits::bits_val(data, pos + 5 + 2 * w, w as nat)
                                - bias) as i32,
                        },
                        pos + 5 + 3 * w,
                    ),
                )
            }
        }
    }
}

/// An optional signed byte decoded at bit `pos`: a presence bit, then
/// the byte when it is set.
pub open spec fn spec_opt_i8_at(data: Seq<u8>, pos: int) -> Option<(Option<i8>, int)> {
    if pos + 1 > 8 * data.len() {
        None
    } else if !crate::bits::bit_at(data, pos) {
        Some((None, pos + 1))
    } else if pos + 9 > 8 * data.len() {
        None
    } else {
        let b = crate::bits::bits_val(data, pos + 1, 8);
        let v = if b >= 128 {
            b - 256
        } else {
            b
        };
        Some((Some(v as i8), pos + 9))
    }
}

/// A rotation decoded at bit `pos`: three gated signed bytes.
pub open spec fn spec_rotation_at(data: Seq<u8>, pos: int) -> Option<(Rotation, int)> {
    match spec_opt_i8_at(data, pos) {
        None => None,
        Some((yaw, p1)) => match spec_opt_i8_at(data, p1) {
            None => None,
            Some((pitch, p2)) => match spec_opt_i8_at(data, p2) {
                None => None,
                Some((roll, p3)) => Some((Rotation { yaw, pitch, roll }, p3)),
            },
        },
    }
}

/// Reads a vector: a five-bit width, then three magnitudes of two more
/// bits each, biased to be signed. A width the engine never writes is
/// reported as a short stream.
fn read_vector(br: &mut BitReader) -> (r: Result<Vector3i, NetworkError>)
    requires
        old(br).wf(),
    ensures
        final(br).data@ == old(br).data@,
        final(br).wf(),
        old(br).pos <= final(br).pos,
        r is Ok ==> old(br).pos < final(br).pos,
        match r {
            Ok(v) => spec_vector_at(old(br).data@, old(br).pos as int) == Some(
                (v, final(br).pos as int),
            ),
            Err(_) => spec_vector_at(old(br).data@, old(br).pos as int) is None,
        },
{
    let nb = br.read_bits(5)?;
    if nb > 30 {
        return Err(NetworkError::InsufficientBits(br.pos));
    }
    let width = (nb + 2) as usize;
    let ghost data = br.data@;
    proof {
        lemma2_to64();
        crate::bits::lemma_pow2_mono((nb + 1) as nat, 31);
        lemma_pow2_unfold((nb + 2) as nat);
    }
    let bias: u32 = pow2_u32((nb + 1) as usize);
    let x = br.read_bits(width)?;
    let y = br.read_bits(width)?;
    let z = br.read_bits(width)?;
    Ok(
        Vector3i {
            x: biased_to_signed(x, bias, width),
            y: biased_to_signed(y, bias, width),
            z: biased_to_signed(z, bias, width),
        },
    )
}

/// Converts a biased magnitude to its signed value.
fn biased_to_signed(v: u32, bias: u32, width: usize) -> (r: i32)
    requires
        1 <= width <= 32,
        bias >= 1,
        bias as int == pow2((width - 1) as nat),
        v < 2 * bias,
    ensures
        r as int == v - bias,
{
    if v >= bias {
        proof {
            lemma2_to64();
            crate::bits::lemma_pow2_mono((width - 1) as nat, 31);
        }
        (v - bias) as i32
    } else {
        proof {
            lemma2_to64();
            crate::bits::lemma_pow2_mono((width - 1) as nat, 31);
        }
        let d = bias - v;
        -((d - 1) as i32) - 1
    }
}

/// Computes a power of two that fits a 32-bit word.
fn pow2_u32(n: usize) -> (r: u32)
    requires
        n < 32,
    ensures
        r == pow2(n as nat),
        r >= 1,
{
    let mut r: u32 = 1;
    let mut i: usize = 0;
    proof {
        lemma2_to64();
    }
    while i < n
        invariant
            i <= n,
            n < 32,
            r == pow2(i as nat),
            r <= 0x8000_0000,
        decreases n - i,
    {
        proof {
            crate::bits::lemma_pow2_mono(i as nat, 30 as nat);
            crate::bits::lemma_pow2_mono((i + 1) as nat, 31 as nat);
            lemma_pow2_unfold((i + 1) as nat);
            lemma2_to64();
        }
        r = r * 2;
        i = i + 1;
    }
    r
}

/// Reads the optional per-axis rotation bytes.
fn read_rotation(br: &mut BitReader) -> (r: Result<Rotation, NetworkError>)
    requires
        old(br).wf(),
    ensures
        final(br).data@ == old(br).data@,
        final(br).wf(),
        old(br).pos <= final(br).pos,
        r is Ok ==> old(br).pos < final(br).pos,
        match r {
            Ok(v) => spec_rotation_at(old(br).data@, old(br).pos as int) == Some(
                (v, final(br).pos as int),
            ),
            Err(_) => spec_rotation_at(old(br).data@, old(br).pos as int) is None,
        },
{
    let yaw = read_optional_i8(br)?;
    let pitch = read_optional_i8(br)?;
    let roll = read_optional_i8(br)?;
    Ok(Rotation { yaw, pitch, roll })
}

fn read_optional_i8(br: &mut BitReader) -> (r: Result<Option<i8>, NetworkError>)
    requires
        old(br).wf(),
    ensures
        final(br).data@ == old(br).data@,
        final(br).wf(),
        old(br).pos <= final(br).pos,
        r is Ok ==> old(br).pos < final(br).pos,
        match r {
            Ok(v) => spec_opt_i8_at(old(br).data@, old(br).pos as int) == Some(
                (v, final(br).pos as int),
            ),
            Err(_) => spec_opt_i8_at(old(br).data@, old(br).pos as int) is None,
        },
{
    if br.read_bit()? {
        let b = br.read_byte()?;
        if b >= 128 {
            Ok(Some(-(((255 - b) as u8) as i8) - 1))
        } else {
            Ok(Some(b as i8))
        }
    } else {
        Ok(None)
    }
}


/// The `n` whole bytes starting at bit `pos`.
pub open spec fn spec_net_bytes(data: Seq<u8>, pos: int, n: nat) -> Seq<u8> {
    Seq::new(n, |i: int| crate::bits::bits_val(data, pos + 8 * i, 8) as u8)
}

/// A length-prefixed string decoded at bit `pos`, with the same size and
/// encoding rules as the byte-level reader: a non-negative prefix counts
/// Windows-1252 bytes, a negative one UTF-16 code units, each with a
/// trailing NUL dropped; `None` on an implausible prefix or a short
/// stream.
pub open spec fn spec_net_string_at(data: Seq<u8>, pos: int) -> Option<(Seq<char>, int)> {
    if pos + 32 > 8 * data.len() {
        None
    } else {
        let size = crate::core_parser::to_signed32(crate::bits::bits_val(data, pos, 32));
        let p = pos + 32;
        if size == 0 {
            Some((Seq::empty(), p))
        } else if size <= -0x4000_0000 {
            None
        } else {
            let blen: int = if size > 0 {
                size
            } else {
                -2 * size
            };
            if blen > data.len() {
                None
            } else if p + 8 * blen > 8 * data.len() {
                None
            } else if size > 0 {
                Some((crate::text::win1252_seq(spec_net_bytes(data, p, (blen - 1) as nat)), p + 8
                    * blen))
            } else {
                Some(
                    (
                        crate::text::utf16_le_seq(spec_net_bytes(data, p, (blen - 2) as nat)),
                        p + 8 * blen,
                    ),
                )
            }
        }
    }
}

/// Reads a length-prefixed string from the bit stream; the payload is
/// Windows-1252 for a non-negative prefix and UTF-16 for a negative one,
/// each with its trailing NUL dropped. A prefix the remaining bits cannot
/// hold is reported as a short stream without allocating.
fn read_net_string(br: &mut BitReader) -> (r: Result<String, NetworkError>)
    requires
        old(br).wf(),
    ensures
        final(br).data@ == old(br).data@,
        final(br).wf(),
        old(br).pos <= final(br).pos,
        r is Ok ==> old(br).pos < final(br).pos,
        match r {
            Ok(sv) => spec_net_string_at(old(br).data@, old(br).pos as int) == Some(
                (sv@, final(br).pos as int),
            ),
            Err(_) => spec_net_string_at(old(br).data@, old(br).pos as int) is None,
        },
{
    let ghost data = br.data@;
    let size = br.read_i32()?;
    if size == 0 {
        return Ok(String::new());
    }
    let byte_len: usize = if size > 0 {
        size as usize
    } else if size <= -0x4000_0000 {
        return Err(NetworkError::InsufficientBits(br.pos));
    } else {
        (-(size as i64) * 2) as usize
    };
    if byte_len > br.data.len() {
        return Err(NetworkError::InsufficientBits(br.pos));
    }
    let ghost p = br.pos as int;
    let mut bytes: Vec<u8> = Vec::new();
    let mut i: usize = 0;
    while i < byte_len
        invariant
            br.wf(),
            br.data@ == data,
            data == old(br).data@,
            i <= byte_len,
            old(br).pos < br.pos,
            br.pos == p + 8 * i,
            p + 8 * byte_len <= 8 * data.len() || i < byte_len,
            bytes@ =~= spec_net_bytes(data, p, i as nat),
            1 <= byte_len,
            p + 8 * byte_len > 8 * data.len() ==> spec_net_string_at(
                data,
                old(br).pos as int,
            ) is None,
            p + 8 * byte_len <= 8 * data.len() ==> spec_net_string_at(data, old(br).pos as int)
                == Some(
                (
                    if size > 0 {
                        crate::text::win1252_seq(spec_net_bytes(data, p, (byte_len - 1) as nat))
                    } else {
                        crate::text::utf16_le_seq(spec_net_bytes(data, p, (byte_len - 2) as nat))
                    },
                    p + 8 * byte_len,
                ),
            ),
        decreases byte_len - i,
    {
        let b = match br.read_byte() {
            Ok(b) => b,
            Err(e) => {
                proof {
                    assert(p + 8 * byte_len > 8 * data.len());
                    assert(spec_net_string_at(data, old(br).pos as int) is None);
                }
                return Err(e);
            },
        };
        bytes.push(b);
        proof {
            assert(bytes@ =~= spec_net_bytes(data, p, (i + 1) as nat));
        }
        i = i + 1;
    }
    proof {
        assert(bytes@ =~= spec_net_bytes(data, p, byte_len as nat));
    }
    let trailer: usize = if size > 0 {
        1
    } else {
        2
    };
    let content = vstd::slice::slice_subrange(bytes.as_slice(), 0, byte_len - trailer);
    proof {
        assert(content@ =~= spec_net_bytes(data, p, (byte_len - trailer) as nat));
    }
    if size > 0 {
        Ok(crate::text::decode_windows1252(content))
    } else {
        Ok(crate::text::decode_utf16le(content))
    }
}

/// Decodes one attribute payload of the given shape; the objects table
/// resolves product attributes inside online loadouts, and the replay's
/// version triple gates the fields that newer streams added.
fn decode_attribute(
    br: &mut BitReader,
    tag: AttrTag,
    objects: &Vec<String>,
    major: i32,
    minor: i32,
    net: i32,
) -> (r: Result<AttributeValue, NetworkError>)
    requires
        old(br).wf(),
    ensures
        final(br).data@ == old(br).data@,
        final(br).wf(),
        old(br).pos <= final(br).pos,
        r is Ok ==> old(br).pos < final(br).pos,
        r matches Ok(v) ==> tag_shape(tag, v),
{
    match tag {
        AttrTag::Boolean => {
            let b = br.read_bit()?;
            Ok(AttributeValue::Boolean(b))
        },
        AttrTag::Byte => {
            let b = br.read_byte()?;
            Ok(AttributeValue::Byte(b))
        },
        AttrTag::Int => {
            let v = br.read_i32()?;
            Ok(AttributeValue::Int(v))
        },
        AttrTag::Float => {
            let v = br.read_u32()?;
            Ok(AttributeValue::FloatBits(v))
        },
        AttrTag::Text => {
            let s = read_net_string(br)?;
            Ok(AttributeValue::Text(s))
        },
        AttrTag::Enumeration => {
            let v = br.read_bits(11)?;
            proof {
                lemma2_to64();
            }
            Ok(AttributeValue::Enumeration(v as u16))
        },
        AttrTag::Flagged => {
            let flag = br.read_bit()?;
            let v = br.read_u32()?;
            Ok(AttributeValue::Flagged(flag, v))
        },
        AttrTag::QWord => {
            let lo = br.read_u32()?;
            let hi = br.read_u32()?;
            Ok(AttributeValue::QWord((lo as u64) + 0x1_0000_0000u64 * (hi as u64)))
        },
        AttrTag::Location => {
            let v = read_vector(br)?;
            Ok(AttributeValue::Location(v))
        },
        AttrTag::RigidBody => {
            let sleeping = br.read_bit()?;
            let location = read_vector(br)?;
            let rx = br.read_bits(16)?;
            let ry = br.read_bits(16)?;
            let rz = br.read_bits(16)?;
            proof {
                lemma2_to64();
            }
            let rotation = Vector3i {
                x: bits16_to_i32(rx),
                y: bits16_to_i32(ry),
                z: bits16_to_i32(rz),
            };
            let (linear_velocity, angular_velocity) = if !sleeping {
                let lv = read_vector(br)?;
                let av = read_vector(br)?;
                (Some(lv), Some(av))
            } else {
                (None, None)
            };
            Ok(
                AttributeValue::RigidBody {
                    sleeping,
                    location,
                    rotation,
                    linear_velocity,
                    angular_velocity,
                },
            )
        },
        AttrTag::Demolish => {
            let attacker_flag = br.read_bit()?;
            let attacker = br.read_u32()?;
            let victim_flag = br.read_bit()?;
            let victim = br.read_u32()?;
            let attacker_velocity = read_vector(br)?;
            let victim_velocity = read_vector(br)?;
            Ok(
                AttributeValue::Demolish {
                    attacker_flag,
                    attacker,
                    victim_flag,
                    victim,
                    attacker_velocity,
                    victim_velocity,
                },
            )
        },
        AttrTag::Pickup => {
            let has_instigator = br.read_bit()?;
            let instigator = if has_instigator {
                Some(br.read_u32()?)
            } else {
                None
            };
            let picked_up = br.read_bit()?;
            Ok(AttributeValue::Pickup { instigator, picked_up })
        },
        AttrTag::UniqueId => {
            let uid = decode_unique_id(br, net)?;
            Ok(AttributeValue::UniqueId(uid))
        },
        AttrTag::PartyLeader => {
            let system_id = br.read_byte()?;
            if system_id == 0 {
                Ok(AttributeValue::PartyLeader(None))
            } else {
                let (remote_id, local_id) = decode_remote_id(br, net, system_id)?;
                Ok(
                    AttributeValue::PartyLeader(
                        Some(crate::models::UniqueId { system_id, remote_id, local_id }),
                    ),
                )
            }
        },
        AttrTag::CamSettings => {
            let cam = decode_cam_settings(br, net)?;
            Ok(AttributeValue::CamSettings(cam))
        },
        AttrTag::Loadout => {
            let loadout = decode_loadout(br)?;
            Ok(AttributeValue::Loadout(loadout))
        },
        AttrTag::LoadoutOnline => {
            let online = decode_online_loadout(br, objects, net)?;
            Ok(AttributeValue::LoadoutOnline(online))
        },
        AttrTag::TeamLoadout => {
            let blue = decode_loadout(br)?;
            let orange = decode_loadout(br)?;
            Ok(AttributeValue::TeamLoadout { blue, orange })
        },
        AttrTag::LoadoutsOnline => {
            let blue = decode_online_loadout(br, objects, net)?;
            let orange = decode_online_loadout(br, objects, net)?;
            let unknown1 = br.read_bit()?;
            let unknown2 = br.read_bit()?;
            Ok(AttributeValue::LoadoutsOnline { blue, orange, unknown1, unknown2 })
        },
        AttrTag::Reservation => {
            let res = decode_reservation(br, major, minor, net)?;
            Ok(AttributeValue::Reservation(res))
        },
        AttrTag::ClubColors => {
            let blue_flag = br.read_bit()?;
            let blue_color = br.read_byte()?;
            let orange_flag = br.read_bit()?;
            let orange_color = br.read_byte()?;
            Ok(AttributeValue::ClubColors { blue_flag, blue_color, orange_flag, orange_color })
        },
        AttrTag::TeamPaint => {
            let team = br.read_byte()?;
            let primary_color = br.read_byte()?;
            let accent_color = br.read_byte()?;
            let primary_finish = br.read_u32()?;
            let accent_finish = br.read_u32()?;
            Ok(
                AttributeValue::TeamPaint {
                    team,
                    primary_color,
                    accent_color,
                    primary_finish,
                    accent_finish,
                },
            )
        },
        AttrTag::MusicStinger => {
            let flag = br.read_bit()?;
            let cue = br.read_u32()?;
            let trigger = br.read_byte()?;
            Ok(AttributeValue::MusicStinger { flag, cue, trigger })
        },
        AttrTag::DamageState => {
            let tile_state = br.read_byte()?;
            let damaged = br.read_bit()?;
            let offender = br.read_i32()?;
            let ball_position = read_vector(br)?;
            let direct_hit = br.read_bit()?;
            let unknown = br.read_bit()?;
            Ok(
                AttributeValue::DamageState {
                    tile_state,
                    damaged,
                    offender,
                    ball_position,
                    direct_hit,
                    unknown,
                },
            )
        },
        AttrTag::AppliedDamage => {
            let id = br.read_byte()?;
            let position = read_vector(br)?;
            let damage_index = br.read_i32()?;
            let total_damage = br.read_i32()?;
            Ok(AttributeValue::AppliedDamage { id, position, damage_index, total_damage })
        },
        AttrTag::Explosion => {
            let flag = br.read_bit()?;
            let actor = br.read_i32()?;
            let location = read_vector(br)?;
            Ok(AttributeValue::Explosion { flag, actor, location })
        },
        AttrTag::ExtendedExplosion => {
            let flag = br.read_bit()?;
            let actor = br.read_i32()?;
            let location = read_vector(br)?;
            let unknown_flag = br.read_bit()?;
            let unknown_int = br.read_i32()?;
            Ok(
                AttributeValue::ExtendedExplosion {
                    flag,
                    actor,
                    location,
                    unknown_flag,
                    unknown_int,
                },
            )
        },
        AttrTag::Welded => {
            let active = br.read_bit()?;
            let actor = br.read_i32()?;
            let offset = read_vector(br)?;
            let mass_bits = br.read_u32()?;
            let rotation = read_rotation(br)?;
            Ok(AttributeValue::WeldedInfo { active, actor, offset, mass_bits, rotation })
        },
        AttrTag::PrivateMatchSettings => {
            let mutators = read_net_string(br)?;
            let joinable_by = br.read_u32()?;
            let max_players = br.read_u32()?;
            let game_name = read_net_string(br)?;
            let password = read_net_string(br)?;
            let flag = br.read_bit()?;
            Ok(
                AttributeValue::PrivateMatchSettings {
                    mutators,
                    joinable_by,
                    max_players,
                    game_name,
                    password,
                    flag,
                },
            )
        },
        AttrTag::GameMode => {
            let mode: u8 = if major < 868 || (major == 868 && minor < 12) {
                let ghost p0 = br.pos as int;
                let v = br.read_bits(2)?;
                proof {
                    crate::bits::lemma_bits_val_bound(br.data@, p0, 2);
                    lemma2_to64();
                }
                v as u8
            } else {
                br.read_byte()?
            };
            Ok(AttributeValue::GameMode(mode))
        },
    }
}

/// Reads `n` whole bytes from the bit stream.
fn read_byte_vec(br: &mut BitReader, n: usize) -> (r: Result<Vec<u8>, NetworkError>)
    requires
        old(br).wf(),
    ensures
        final(br).data@ == old(br).data@,
        final(br).wf(),
        old(br).pos <= final(br).pos,
        r matches Ok(v) ==> v@ == spec_net_bytes(old(br).data@, old(br).pos as int, n as nat)
            && final(br).pos == old(br).pos + 8 * n,
{
    let ghost p = br.pos as int;
    let mut out: Vec<u8> = Vec::new();
    let mut i: usize = 0;
    while i < n
        invariant
            br.wf(),
            br.data@ == old(br).data@,
            p == old(br).pos as int,
            old(br).pos <= br.pos,
            br.pos == p + 8 * i,
            i <= n,
            out@ =~= spec_net_bytes(br.data@, p, i as nat),
        decreases n - i,
    {
        let b = br.read_byte()?;
        out.push(b);
        proof {
            assert(out@ =~= spec_net_bytes(br.data@, p, (i + 1) as nat));
        }
        i = i + 1;
    }
    Ok(out)
}

/// Decodes a platform-scoped remote id for the given discriminator, then
/// the local slot byte. A discriminator the format does not define is
/// reported as an unimplemented attribute naming it.
fn decode_remote_id(br: &mut BitReader, net: i32, system_id: u8) -> (r: Result<
    (crate::models::RemoteId, u8),
    NetworkError,
>)
    requires
        old(br).wf(),
    ensures
        final(br).data@ == old(br).data@,
        final(br).wf(),
        old(br).pos <= final(br).pos,
{
    let remote: crate::models::RemoteId = if system_id == 0 {
        let v = br.read_bits(24)?;
        crate::models::RemoteId::SplitScreen(v)
    } else if system_id == 1 {
        let v = br.read_u64()?;
        crate::models::RemoteId::Steam(v)
    } else if system_id == 2 {
        let count: usize = if net >= 1 {
            32
        } else {
            24
        };
        let name_bytes = read_byte_vec(br, count)?;
        let online_id = br.read_u64()?;
        crate::models::RemoteId::PlayStation { name_bytes, online_id }
    } else if system_id == 4 {
        let v = br.read_u64()?;
        crate::models::RemoteId::Xbox(v)
    } else if system_id == 5 {
        let v = br.read_u64()?;
        crate::models::RemoteId::QQ(v)
    } else if system_id == 6 {
        let online_id = br.read_u64()?;
        let unknown = read_byte_vec(br, 24)?;
        crate::models::RemoteId::Switch { online_id, unknown }
    } else if system_id == 7 {
        let online_id = br.read_u64()?;
        let unknown: Vec<u8> = if net >= 10 {
            Vec::new()
        } else {
            read_byte_vec(br, 24)?
        };
        crate::models::RemoteId::PsyNet { online_id, unknown }
    } else if system_id == 11 {
        let name = read_net_string(br)?;
        crate::models::RemoteId::Epic(name)
    } else {
        let label = String::from_str("unique id system ").concat(
            crate::decimal::u64_to_string(system_id as u64).as_str(),
        );
        return Err(NetworkError::UnimplementedAttribute(label));
    };
    let local_id = br.read_byte()?;
    Ok((remote, local_id))
}

/// Decodes a player's unique id.
fn decode_unique_id(br: &mut BitReader, net: i32) -> (r: Result<
    crate::models::UniqueId,
    NetworkError,
>)
    requires
        old(br).wf(),
    ensures
        final(br).data@ == old(br).data@,
        final(br).wf(),
        old(br).pos <= final(br).pos,
        r is Ok ==> old(br).pos < final(br).pos,
{
    let system_id = br.read_byte()?;
    let (remote_id, local_id) = decode_remote_id(br, net, system_id)?;
    Ok(crate::models::UniqueId { system_id, remote_id, local_id })
}

/// Decodes camera preferences; the transition speed exists only on newer
/// streams.
fn decode_cam_settings(br: &mut BitReader, net: i32) -> (r: Result<
    crate::models::CamSettings,
    NetworkError,
>)
    requires
        old(br).wf(),
    ensures
        final(br).data@ == old(br).data@,
        final(br).wf(),
        old(br).pos <= final(br).pos,
        r is Ok ==> old(br).pos < final(br).pos,
{
    let fov_bits = br.read_u32()?;
    let height_bits = br.read_u32()?;
    let angle_bits = br.read_u32()?;
    let distance_bits = br.read_u32()?;
    let stiffness_bits = br.read_u32()?;
    let swivel_bits = br.read_u32()?;
    let transition_bits: Option<u32> = if net >= 5 {
        Some(br.read_u32()?)
    } else {
        None
    };
    Ok(
        crate::models::CamSettings {
            fov_bits,
            height_bits,
            angle_bits,
            distance_bits,
            stiffness_bits,
            swivel_bits,
            transition_bits,
        },
    )
}

/// Decodes a car loadout; each optional field exists from the loadout
/// version that introduced it.
fn decode_loadout(br: &mut BitReader) -> (r: Result<crate::models::Loadout, NetworkError>)
    requires
        old(br).wf(),
    ensures
        final(br).data@ == old(br).data@,
        final(br).wf(),
        old(br).pos <= final(br).pos,
        r is Ok ==> old(br).pos < final(br).pos,
{
    let version = br.read_byte()?;
    let body = br.read_u32()?;
    let decal = br.read_u32()?;
    let wheels = br.read_u32()?;
    let rocket_trail = br.read_u32()?;
    let antenna = br.read_u32()?;
    let topper = br.read_u32()?;
    let unknown1 = br.read_u32()?;
    let unknown2: Option<u32> = if version >= 11 {
        Some(br.read_u32()?)
    } else {
        None
    };
    let (engine_audio, trail, goal_explosion, banner): (
        Option<u32>,
        Option<u32>,
        Option<u32>,
        Option<u32>,
    ) = if version >= 16 {
        (Some(br.read_u32()?), Some(br.read_u32()?), Some(br.read_u32()?), Some(br.read_u32()?))
    } else {
        (None, None, None, None)
    };
    let product_id: Option<u32> = if version >= 17 {
        Some(br.read_u32()?)
    } else {
        None
    };
    Ok(
        crate::models::Loadout {
            version,
            body,
            decal,
            wheels,
            rocket_trail,
            antenna,
            topper,
            unknown1,
            unknown2,
            engine_audio,
            trail,
            goal_explosion,
            banner,
            product_id,
        },
    )
}

/// Decodes one product attribute: a flag, the attribute's object index,
/// and a value keyed by that object's name. An object index past the
/// table, or a product name the decoder does not know, is an error.
fn decode_product(br: &mut BitReader, objects: &Vec<String>, net: i32) -> (r: Result<
    crate::models::ProductAttribute,
    NetworkError,
>)
    requires
        old(br).wf(),
    ensures
        final(br).data@ == old(br).data@,
        final(br).wf(),
        old(br).pos <= final(br).pos,
{
    let unknown = br.read_bit()?;
    let object_ind = br.read_u32()?;
    if object_ind as u64 >= objects.len() as u64 {
        let id: i32 = if object_ind <= 0x7FFF_FFFF {
            object_ind as i32
        } else {
            0x7FFF_FFFF
        };
        return Err(NetworkError::ObjectIdOutOfRange(id));
    }
    let name = &objects[object_ind as usize];
    let value: crate::models::ProductValue = if str_eq(
        name.as_str(),
        "TAGame.ProductAttribute_UserColor_TA",
    ) {
        if net >= 8 {
            let v = br.read_u32()?;
            crate::models::ProductValue::NewColor(v)
        } else {
            let has = br.read_bit()?;
            if has {
                let v = br.read_bits(31)?;
                crate::models::ProductValue::OldColor(v)
            } else {
                crate::models::ProductValue::NoColor
            }
        }
    } else if str_eq(name.as_str(), "TAGame.ProductAttribute_Painted_TA") {
        if net >= 11 {
            let v = br.read_bits(31)?;
            crate::models::ProductValue::NewPaint(v)
        } else {
            let v = br.serialized_int(14)?;
            crate::models::ProductValue::OldPaint(v)
        }
    } else if str_eq(name.as_str(), "TAGame.ProductAttribute_TitleID_TA") {
        let v = read_net_string(br)?;
        crate::models::ProductValue::Title(v)
    } else if str_eq(name.as_str(), "TAGame.ProductAttribute_SpecialEdition_TA") {
        let v = br.read_bits(31)?;
        crate::models::ProductValue::SpecialEdition(v)
    } else if str_eq(name.as_str(), "TAGame.ProductAttribute_TeamEdition_TA") {
        if net >= 11 {
            let v = br.read_bits(31)?;
            crate::models::ProductValue::TeamEdition(v)
        } else {
            let v = br.serialized_int(14)?;
            crate::models::ProductValue::TeamEdition(v)
        }
    } else {
        return Err(NetworkError::UnimplementedAttribute(name.clone()));
    };
    Ok(crate::models::ProductAttribute { unknown, object_ind, value })
}

/// Decodes an online loadout: a count of items, each a counted list of
/// product attributes.
fn decode_online_loadout(br: &mut BitReader, objects: &Vec<String>, net: i32) -> (r: Result<
    crate::models::OnlineLoadout,
    NetworkError,
>)
    requires
        old(br).wf(),
    ensures
        final(br).data@ == old(br).data@,
        final(br).wf(),
        old(br).pos <= final(br).pos,
        r is Ok ==> old(br).pos < final(br).pos,
{
    let count = br.read_byte()?;
    let mut products: Vec<Vec<crate::models::ProductAttribute>> = Vec::new();
    let mut i: usize = 0;
    while i < count as usize
        invariant
            br.wf(),
            br.data@ == old(br).data@,
            old(br).pos < br.pos,
            i <= count as usize,
        decreases count as usize - i,
    {
        let inner_count = br.read_byte()?;
        let mut attrs: Vec<crate::models::ProductAttribute> = Vec::new();
        let mut j: usize = 0;
        while j < inner_count as usize
            invariant
                br.wf(),
                br.data@ == old(br).data@,
                old(br).pos < br.pos,
                j <= inner_count as usize,
            decreases inner_count as usize - j,
        {
            let p = decode_product(br, objects, net)?;
            attrs.push(p);
            j = j + 1;
        }
        products.push(attrs);
        i = i + 1;
    }
    Ok(crate::models::OnlineLoadout { products })
}

/// Decodes a reservation: a three-bit number, the player's unique id, a
/// name unless the id is split-screen, and the trailing flags (a byte on
/// newer streams, two bits on older ones).
fn decode_reservation(br: &mut BitReader, major: i32, minor: i32, net: i32) -> (r: Result<
    crate::models::Reservation,
    NetworkError,
>)
    requires
        old(br).wf(),
    ensures
        final(br).data@ == old(br).data@,
        final(br).wf(),
        old(br).pos <= final(br).pos,
        r is Ok ==> old(br).pos < final(br).pos,
{
    let ghost p0 = br.pos as int;
    let number = br.read_bits(3)?;
    let unique_id = decode_unique_id(br, net)?;
    let name: Option<String> = if unique_id.system_id != 0 {
        Some(read_net_string(br)?)
    } else {
        None
    };
    let flags: u8 = if major > 868 || (major == 868 && minor >= 12) {
        br.read_byte()?
    } else {
        let b1 = br.read_bit()?;
        let b2 = br.read_bit()?;
        (if b1 {
            1u8
        } else {
            0u8
        }) + (if b2 {
            2u8
        } else {
            0u8
        })
    };
    Ok(crate::models::Reservation { number, unique_id, name, flags })
}


fn bits16_to_i32(v: u32) -> (r: i32)
    requires
        v < 0x1_0000,
    ensures
        r == v,
{
    v as i32
}

/// Looks up an open actor channel.
fn find_actor(open_actors: &Vec<(u32, usize)>, id: u32) -> (r: Option<usize>)
    ensures
        match r {
            Some(k) => k < open_actors@.len() && open_actors@[k as int].0 == id,
            None => forall|k: int|
                0 <= k < open_actors@.len() ==> (#[trigger] open_actors@[k]).0 != id,
        },
{
    let n = open_actors.len();
    let mut i: usize = 0;
    while i < n
        invariant
            n == open_actors@.len(),
            i <= n,
            forall|k: int| 0 <= k < i ==> (#[trigger] open_actors@[k]).0 != id,
        decreases n - i,
    {
        if open_actors[i].0 == id {
            return Some(i);
        }
        i = i + 1;
    }
    None
}

/// Looks up a class's network index by name.
fn find_class_index(class_indices: &Vec<ClassIndex>, name: &str) -> (r: Option<i32>)
    ensures
        match r {
            Some(v) => exists|k: int|
                0 <= k < class_indices@.len() && (#[trigger] class_indices@[k]).class@ == name@
                    && class_indices@[k].index == v,
            None => forall|k: int|
                0 <= k < class_indices@.len() ==> (#[trigger] class_indices@[k]).class@ != name@,
        },
{
    let n = class_indices.len();
    let mut i: usize = 0;
    while i < n
        invariant
            n == class_indices@.len(),
            i <= n,
            forall|k: int| 0 <= k < i ==> (#[trigger] class_indices@[k]).class@ != name@,
        decreases n - i,
    {
        if str_eq(class_indices[i].class.as_str(), name) {
            return Some(class_indices[i].index);
        }
        i = i + 1;
    }
    None
}

/// Looks up the class whose object index is `ind`.
fn find_class_info(infos: &Vec<ClassInfo>, ind: i32) -> (r: Option<usize>)
    ensures
        match r {
            Some(k) => k < infos@.len() && infos@[k as int].object_ind == ind,
            None => forall|k: int|
                0 <= k < infos@.len() ==> (#[trigger] infos@[k]).object_ind != ind,
        },
{
    let n = infos.len();
    let mut i: usize = 0;
    while i < n
        invariant
            n == infos@.len(),
            i <= n,
            forall|k: int| 0 <= k < i ==> (#[trigger] infos@[k]).object_ind != ind,
        decreases n - i,
    {
        if infos[i].object_ind == ind {
            return Some(i);
        }
        i = i + 1;
    }
    None
}

/// Finds the last (shadowing) flattened property with the given stream id.
fn find_stream(props: &Vec<CacheProp>, sid: i32) -> (r: Option<usize>)
    ensures
        match r {
            Some(k) => k < props@.len() && props@[k as int].stream_id == sid,
            None => forall|k: int|
                0 <= k < props@.len() ==> (#[trigger] props@[k]).stream_id != sid,
        },
{
    let n = props.len();
    let mut i: usize = n;
    while i > 0
        invariant
            n == props@.len(),
            i <= n,
            forall|k: int| i <= k < n ==> (#[trigger] props@[k]).stream_id != sid,
        decreases i,
    {
        i = i - 1;
        if props[i].stream_id == sid {
            return Some(i);
        }
    }
    None
}


/// Resolves a class name to its cache entry: the class itself when it has
/// one, else the nearest ancestor along the engine's parent-class table
/// that does. The walk is bounded by the table's depth.
fn resolve_class_info(
    infos: &Vec<ClassInfo>,
    class_indices: &Vec<ClassIndex>,
    class_name: &str,
) -> (r: Option<usize>)
    ensures
        r matches Some(k) ==> k < infos@.len(),
{
    let mut name: &str = class_name;
    let mut depth: usize = 0;
    while depth < 16
        invariant
            depth <= 16,
        decreases 16 - depth,
    {
        match find_class_index(class_indices, name) {
            Some(ci) => {
                match find_class_info(infos, ci) {
                    Some(k) => {
                        return Some(k);
                    },
                    None => (),
                }
            },
            None => (),
        }
        match crate::tables::parent_class(name) {
            Some(parent) => {
                name = parent;
            },
            None => {
                return None;
            },
        }
        depth = depth + 1;
    }
    None
}

/// Decodes the frames of the network stream. Stops cleanly when fewer than
/// one frame's header of bits remains; any failure inside a frame is an
/// error.
fn decode_frames(
    data: &[u8],
    num_frames: usize,
    channel_bits: usize,
    objects: &Vec<String>,
    class_indices: &Vec<ClassIndex>,
    infos: &Vec<ClassInfo>,
    major: i32,
    minor: i32,
    net: i32,
) -> (r: Result<Vec<NetworkFrame>, NetworkError>)
    requires
        data@.len() < 0x1000_0000,
        1 <= channel_bits <= 31,
        forall|i: int|
            0 <= i < infos@.len() ==> class_info_basic(#[trigger] infos@[i], objects.deep_view()),
    ensures
        r matches Ok(frames) ==> frames@.len() <= num_frames,
        r matches Ok(frames) ==> new_actors_in_range(frames@, objects.deep_view().len() as int),
        r matches Ok(frames) ==> updates_resolved(frames@, objects.deep_view()),
        r matches Ok(frames) ==> actors_introduced(frames@),
        r matches Ok(frames) ==> (frames@.len() > 0 ==> frames@[0].time_bits
            == crate::bits::bits_val(data@, 0, 32) && frames@[0].delta_bits
            == crate::bits::bits_val(data@, 32, 32)),
        num_frames == 0 ==> (r matches Ok(frames) && frames@.len() == 0),
        8 * data@.len() < 64 ==> (r matches Ok(frames) && frames@.len() == 0),
        r matches Ok(frames) ==> (num_frames > 0 && 8 * data@.len() >= 64 ==> frames@.len() > 0),
{
    let mut br = BitReader::new(data);
    let mut frames: Vec<NetworkFrame> = Vec::new();
    let mut open_actors: Vec<(u32, usize)> = Vec::new();
    let mut f: usize = 0;
    while f < num_frames
        invariant
            br.wf(),
            br.data@ == data@,
            f <= num_frames,
            frames@.len() == f,
            forall|k: int|
                0 <= k < open_actors@.len() ==> (#[trigger] open_actors@[k]).1 < infos@.len(),
            forall|i: int|
                0 <= i < infos@.len() ==> class_info_basic(
                    #[trigger] infos@[i],
                    objects.deep_view(),
                ),
            channel_bits <= 31,
            8 * data@.len() < 64 ==> frames@.len() == 0,
            f == 0 ==> br.pos == 0,
            frames@.len() > 0 ==> frames@[0].time_bits == crate::bits::bits_val(data@, 0, 32)
                && frames@[0].delta_bits == crate::bits::bits_val(data@, 32, 32),
            new_actors_in_range(frames@, objects.deep_view().len() as int),
            updates_resolved(frames@, objects.deep_view()),
            actors_introduced(frames@),
            forall|k: int|
                0 <= k < open_actors@.len() ==> id_spawned_any(
                    frames@,
                    (#[trigger] open_actors@[k]).0 as i32,
                ),
        ensures
            num_frames > 0 && 8 * data@.len() >= 64 ==> frames@.len() > 0,
        decreases num_frames - f,
    {
        if br.data.len() * 8 - br.pos < 64 {
            break;
        }
        let time_bits = match br.read_u32() {
            Ok(v) => v,
            Err(e) => {
                return Err(e);
            },
        };
        let delta_bits = match br.read_u32() {
            Ok(v) => v,
            Err(e) => {
                return Err(e);
            },
        };
        let mut new_actors: Vec<NewActor> = Vec::new();
        let mut updated_actors: Vec<UpdatedAttribute> = Vec::new();
        let mut deleted_actors: Vec<i32> = Vec::new();
        loop
            invariant
                br.wf(),
                br.data@ == data@,
                num_frames > 0,
                64 <= 8 * data@.len(),
                forall|k: int|
                    0 <= k < open_actors@.len() ==> (#[trigger] open_actors@[k]).1 < infos@.len(),
                forall|i: int|
                    0 <= i < infos@.len() ==> class_info_basic(
                        #[trigger] infos@[i],
                        objects.deep_view(),
                    ),
                channel_bits <= 31,
                forall|j: int|
                    0 <= j < new_actors@.len() ==> 0 <= (#[trigger] new_actors@[j]).object_id
                        < objects.deep_view().len(),
                forall|j: int|
                    0 <= j < updated_actors@.len() ==> 0 <= (
                    #[trigger] updated_actors@[j]).object_id < objects.deep_view().len()
                        && spec_attr_tag(
                        objects.deep_view()[updated_actors@[j].object_id as int],
                    ) is Some,
                forall|k: int|
                    0 <= k < open_actors@.len() ==> id_spawned_any(
                        frames@,
                        (#[trigger] open_actors@[k]).0 as i32,
                    ) || in_news(new_actors@, open_actors@[k].0 as i32),
                forall|j: int|
                    0 <= j < updated_actors@.len() ==> id_spawned_any(
                        frames@,
                        (#[trigger] updated_actors@[j]).actor_id,
                    ) || in_news(new_actors@, updated_actors@[j].actor_id),
                forall|j: int|
                    0 <= j < deleted_actors@.len() ==> id_spawned_any(
                        frames@,
                        #[trigger] deleted_actors@[j],
                    ) || in_news(new_actors@, deleted_actors@[j]),
            ensures
                br.wf(),
                br.data@ == data@,
                forall|k: int|
                    0 <= k < open_actors@.len() ==> (#[trigger] open_actors@[k]).1 < infos@.len(),
                forall|j: int|
                    0 <= j < new_actors@.len() ==> 0 <= (#[trigger] new_actors@[j]).object_id
                        < objects.deep_view().len(),
                forall|j: int|
                    0 <= j < updated_actors@.len() ==> 0 <= (
                    #[trigger] updated_actors@[j]).object_id < objects.deep_view().len()
                        && spec_attr_tag(
                        objects.deep_view()[updated_actors@[j].object_id as int],
                    ) is Some,
                forall|k: int|
                    0 <= k < open_actors@.len() ==> id_spawned_any(
                        frames@,
                        (#[trigger] open_actors@[k]).0 as i32,
                    ) || in_news(new_actors@, open_actors@[k].0 as i32),
                forall|j: int|
                    0 <= j < updated_actors@.len() ==> id_spawned_any(
                        frames@,
                        (#[trigger] updated_actors@[j]).actor_id,
                    ) || in_news(new_actors@, updated_actors@[j].actor_id),
                forall|j: int|
                    0 <= j < deleted_actors@.len() ==> id_spawned_any(
                        frames@,
                        #[trigger] deleted_actors@[j],
                    ) || in_news(new_actors@, deleted_actors@[j]),
            decreases br.remaining(),
        {
            let more = match br.read_bit() {
                Ok(b) => b,
                Err(e) => {
                    return Err(e);
                },
            };
            if !more {
                break;
            }
            let actor_id_raw = match br.read_bits(channel_bits) {
                Ok(v) => v,
                Err(e) => {
                    return Err(e);
                },
            };
            proof {
                crate::bits::lemma_bits_val_bound(data@, 0, 0);
                crate::bits::lemma_pow2_mono(channel_bits as nat, 31);
                lemma2_to64();
            }
            let actor_id = actor_id_raw;
            let alive = match br.read_bit() {
                Ok(b) => b,
                Err(e) => {
                    return Err(e);
                },
            };
            if alive {
                let fresh = match br.read_bit() {
                    Ok(b) => b,
                    Err(e) => {
                        return Err(e);
                    },
                };
                if fresh {
                    if find_actor(&open_actors, actor_id).is_some() {
                        return Err(NetworkError::ActorAlreadyOpen(actor_id as i32));
                    }
                    let has_name = match br.read_bit() {
                        Ok(b) => b,
                        Err(e) => {
                            return Err(e);
                        },
                    };
                    let name_id: Option<i32> = if has_name {
                        match br.read_i32() {
                            Ok(v) => Some(v),
                            Err(e) => {
                                return Err(e);
                            },
                        }
                    } else {
                        None
                    };
                    let object_id = match br.read_i32() {
                        Ok(v) => v,
                        Err(e) => {
                            return Err(e);
                        },
                    };
                    if object_id < 0 || object_id as usize >= objects.len() {
                        return Err(NetworkError::ObjectIdOutOfRange(object_id));
                    }
                    let obj_name = &objects[object_id as usize];
                    let class_name: &str = match object_class(obj_name.as_str()) {
                        Some(c) => c,
                        None => obj_name.as_str(),
                    };
                    let info_idx = match resolve_class_info(infos, class_indices, class_name) {
                        Some(k) => k,
                        None => {
                            return Err(
                                NetworkError::UnknownClass(String::from_str(class_name)),
                            );
                        },
                    };
                    let trajectory = match spawn_trajectory(obj_name.as_str()) {
                        SpawnTrajectory::NoTrajectory => Trajectory {
                            location: None,
                            rotation: None,
                        },
                        SpawnTrajectory::LocationOnly => {
                            let loc = match read_vector(&mut br) {
                                Ok(v) => v,
                                Err(e) => {
                                    return Err(e);
                                },
                            };
                            Trajectory { location: Some(loc), rotation: None }
                        },
                        SpawnTrajectory::LocationAndRotation => {
                            let loc = match read_vector(&mut br) {
                                Ok(v) => v,
                                Err(e) => {
                                    return Err(e);
                                },
                            };
                            let rot = match read_rotation(&mut br) {
                                Ok(v) => v,
                                Err(e) => {
                                    return Err(e);
                                },
                            };
                            Trajectory { location: Some(loc), rotation: Some(rot) }
                        },
                    };
                    let ghost prev_news = new_actors@;
                    open_actors.push((actor_id, info_idx));
                    new_actors.push(
                        NewActor {
                            actor_id: actor_id as i32,
                            name_id,
                            object_id,
                            initial_trajectory: trajectory,
                        },
                    );
                    proof {
                        assert(new_actors@[new_actors@.len() - 1].actor_id == actor_id as i32);
                        assert(in_news(new_actors@, actor_id as i32));
                        assert forall|id: i32| in_news(prev_news, id) implies in_news(
                            new_actors@,
                            id,
                        ) by {
                            let m = choose|m: int|
                                0 <= m < prev_news.len() && (#[trigger] prev_news[m]).actor_id
                                    == id;
                            assert(new_actors@[m] == prev_news[m]);
                        }
                    }
                } else {
                    let info_idx = match find_actor(&open_actors, actor_id) {
                        Some(k) => open_actors[k].1,
                        None => {
                            return Err(NetworkError::UnknownActor(actor_id as i32));
                        },
                    };
                    let ghost attr_p0 = br.pos;
                    loop
                        invariant
                            br.wf(),
                            br.data@ == data@,
                            num_frames > 0,
                            64 <= 8 * data@.len(),
                            info_idx < infos@.len(),
                            class_info_basic(infos@[info_idx as int], objects.deep_view()),
                            attr_p0 <= br.pos,
                            forall|j: int|
                                0 <= j < updated_actors@.len() ==> 0 <= (
                                #[trigger] updated_actors@[j]).object_id
                                    < objects.deep_view().len() && spec_attr_tag(
                                    objects.deep_view()[updated_actors@[j].object_id as int],
                                ) is Some,
                            id_spawned_any(frames@, actor_id as i32) || in_news(
                                new_actors@,
                                actor_id as i32,
                            ),
                            forall|j: int|
                                0 <= j < updated_actors@.len() ==> id_spawned_any(
                                    frames@,
                                    (#[trigger] updated_actors@[j]).actor_id,
                                ) || in_news(new_actors@, updated_actors@[j].actor_id),
                        ensures
                            br.wf(),
                            br.data@ == data@,
                            attr_p0 <= br.pos,
                            forall|j: int|
                                0 <= j < updated_actors@.len() ==> 0 <= (
                                #[trigger] updated_actors@[j]).object_id
                                    < objects.deep_view().len() && spec_attr_tag(
                                    objects.deep_view()[updated_actors@[j].object_id as int],
                                ) is Some,
                            forall|j: int|
                                0 <= j < updated_actors@.len() ==> id_spawned_any(
                                    frames@,
                                    (#[trigger] updated_actors@[j]).actor_id,
                                ) || in_news(new_actors@, updated_actors@[j].actor_id),
                        decreases br.remaining(),
                    {
                        let more_attrs = match br.read_bit() {
                            Ok(b) => b,
                            Err(e) => {
                                return Err(e);
                            },
                        };
                        if !more_attrs {
                            break;
                        }
                        let info = &infos[info_idx];
                        let stream_id = match br.serialized_int(info.max_stream_id) {
                            Ok(v) => v,
                            Err(e) => {
                                return Err(e);
                            },
                        };
                        let prop_idx = match find_stream(&info.props, stream_id as i32) {
                            Some(k) => k,
                            None => {
                                return Err(NetworkError::UnknownAttribute(stream_id as i32));
                            },
                        };
                        let tag = info.tags[prop_idx];
                        let value = match decode_attribute(&mut br, tag, objects, major, minor, net) {
                            Ok(v) => v,
                            Err(e) => {
                                return Err(e);
                            },
                        };
                        proof {
                            assert(0 <= infos@[info_idx as int].props@[prop_idx as int].object_ind
                                < objects.deep_view().len() && spec_attr_tag(
                                objects.deep_view()[infos@[info_idx as int].props@[
                                    prop_idx as int].object_ind as int],
                            ) is Some);
                        }
                        updated_actors.push(
                            UpdatedAttribute {
                                actor_id: actor_id as i32,
                                stream_id: stream_id as i32,
                                object_id: info.props[prop_idx].object_ind,
                                attribute: value,
                            },
                        );
                    }
                }
            } else {
                let k = match find_actor(&open_actors, actor_id) {
                    Some(k) => k,
                    None => {
                        return Err(NetworkError::UnknownActor(actor_id as i32));
                    },
                };
                let ghost pre = open_actors@;
                open_actors.remove(k);
                proof {
                    assert(forall|q: int|
                        0 <= q < open_actors@.len() ==> open_actors@[q] == pre[q] || open_actors@[q]
                            == pre[q + 1]);
                }
                deleted_actors.push(actor_id as i32);
            }
        }
        let ghost prev_frames = frames@;
        frames.push(
            NetworkFrame { time_bits, delta_bits, new_actors, updated_actors, deleted_actors },
        );
        proof {
            assert forall|i: int, j: int|
                0 <= i < frames@.len() && 0 <= j < frames@[i].new_actors@.len() implies 0 <= (
            #[trigger] frames@[i].new_actors@[j]).object_id < objects.deep_view().len() by {
                if i < prev_frames.len() {
                    assert(frames@[i] == prev_frames[i]);
                }
            }
            assert forall|i: int, j: int|
                0 <= i < frames@.len() && 0 <= j < frames@[i].updated_actors@.len() implies {
                let u = #[trigger] frames@[i].updated_actors@[j];
                0 <= u.object_id < objects.deep_view().len() && spec_attr_tag(
                    objects.deep_view()[u.object_id as int],
                ) is Some
            } by {
                if i < prev_frames.len() {
                    assert(frames@[i] == prev_frames[i]);
                }
            }
            assert forall|i: int, j: int|
                0 <= i < frames@.len() && 0 <= j < frames@[i].updated_actors@.len() implies
                spawned_by(frames@, i, (#[trigger] frames@[i].updated_actors@[j]).actor_id) by {
                let id = frames@[i].updated_actors@[j].actor_id;
                if i < prev_frames.len() {
                    assert(frames@[i] == prev_frames[i]);
                    assert(spawned_by(prev_frames, i, id));
                    let (k, m) = choose|k: int, m: int|
                        0 <= k <= i && k < prev_frames.len() && 0 <= m < prev_frames[k].new_actors@.len() && (#[trigger] prev_frames[k].new_actors@[m]).actor_id
                            == id;
                    assert(frames@[k] == prev_frames[k]);
                    assert(frames@[k].new_actors@[m].actor_id == id);
                } else {
                    if id_spawned_any(prev_frames, id) {
                        let (k, m) = choose|k: int, m: int|
                            0 <= k <= prev_frames.len() - 1 && k < prev_frames.len() && 0 <= m
                                < prev_frames[k].new_actors@.len() && (#[trigger] prev_frames[k].new_actors@[m]).actor_id == id;
                        assert(frames@[k] == prev_frames[k]);
                        assert(frames@[k].new_actors@[m].actor_id == id);
                    } else {
                        let m = choose|m: int|
                            0 <= m < new_actors@.len() && (#[trigger] new_actors@[m]).actor_id
                                == id;
                        assert(frames@[i].new_actors@[m].actor_id == id);
                    }
                }
            }
            assert forall|i: int, j: int|
                0 <= i < frames@.len() && 0 <= j < frames@[i].deleted_actors@.len() implies
                spawned_by(frames@, i, #[trigger] frames@[i].deleted_actors@[j]) by {
                let id = frames@[i].deleted_actors@[j];
                if i < prev_frames.len() {
                    assert(frames@[i] == prev_frames[i]);
                    assert(spawned_by(prev_frames, i, id));
                    let (k, m) = choose|k: int, m: int|
                        0 <= k <= i && k < prev_frames.len() && 0 <= m < prev_frames[k].new_actors@.len() && (#[trigger] prev_frames[k].new_actors@[m]).actor_id
                            == id;
                    assert(frames@[k] == prev_frames[k]);
                    assert(frames@[k].new_actors@[m].actor_id == id);
                } else {
                    if id_spawned_any(prev_frames, id) {
                        let (k, m) = choose|k: int, m: int|
                            0 <= k <= prev_frames.len() - 1 && k < prev_frames.len() && 0 <= m
                                < prev_frames[k].new_actors@.len() && (#[trigger] prev_frames[k].new_actors@[m]).actor_id == id;
                        assert(frames@[k] == prev_frames[k]);
                        assert(frames@[k].new_actors@[m].actor_id == id);
                    } else {
                        let m = choose|m: int|
                            0 <= m < new_actors@.len() && (#[trigger] new_actors@[m]).actor_id
                                == id;
                        assert(frames@[i].new_actors@[m].actor_id == id);
                    }
                }
            }
            assert forall|k: int|
                0 <= k < open_actors@.len() implies id_spawned_any(
                frames@,
                (#[trigger] open_actors@[k]).0 as i32,
            ) by {
                let id = open_actors@[k].0 as i32;
                if id_spawned_any(prev_frames, id) {
                    let (k2, m) = choose|k2: int, m: int|
                        0 <= k2 <= prev_frames.len() - 1 && k2 < prev_frames.len() && 0 <= m
                            < prev_frames[k2].new_actors@.len() && (#[trigger] prev_frames[k2].new_actors@[m]).actor_id == id;
                    assert(frames@[k2] == prev_frames[k2]);
                    assert(frames@[k2].new_actors@[m].actor_id == id);
                } else {
                    let m = choose|m: int|
                        0 <= m < new_actors@.len() && (#[trigger] new_actors@[m]).actor_id == id;
                    assert(frames@[prev_frames.len() as int].new_actors@[m].actor_id == id);
                }
            }
        }
        f = f + 1;
    }
    Ok(frames)
}

/// Computes the smallest width whose range covers `max_channels`.
fn channel_width(max_channels: u32) -> (r: usize)
    requires
        1 <= max_channels <= 0x7FFF_FFFF,
    ensures
        1 <= r <= 31,
        pow2(r as nat) >= max_channels,
{
    let mut w: usize = 1;
    let mut p: u64 = 2;
    proof {
        lemma2_to64();
    }
    while p < max_channels as u64
        invariant
            1 <= w,
            p == pow2(w as nat),
            max_channels <= 0x7FFF_FFFF,
            w <= 31,
        decreases 31 - w,
    {
        proof {
            if w >= 31 {
                lemma2_to64();
                assert(false);
            }
            lemma_pow2_unfold((w + 1) as nat);
            crate::bits::lemma_pow2_mono((w + 1) as nat, 31);
            lemma2_to64();
        }
        p = p * 2;
        w = w + 1;
    }
    w
}

/// Decodes the network stream of a parsed replay: bounds the frame count
/// by the header's `NumFrames` (or, absent one, by the stream's bytes over
/// an eight-byte-per-frame floor), enforces the bit cursor's machine bound
/// on the stream's size, resolves the class graph, and walks the stream
/// frame by frame. The actor-id width is derived from the header's
/// `MaxChannels`, honoring any positive value; a header without one, or
/// with a non-positive one, gets the engine's usual 1023 channels.
pub fn parse(header: &Header, body: &ReplayBody) -> (r: Result<NetworkFrames, NetworkError>)
    ensures
        net_parse_post(
            crate::header::props_view(header.properties@),
            body.network_data@,
            body.objects.deep_view(),
            net_cache_view(body.net_cache@),
            r,
        ),
{
    proof {
        lemma_int_prop_view(header.properties@, "NumFrames"@);
        lemma_int_prop_view(header.properties@, "MaxChannels"@);
    }
    let frame_bound: usize = match find_int_property(header, "NumFrames") {
        Some(n) => {
            if n < 0 || n as usize > body.network_data.len() {
                return Err(NetworkError::TooManyFrames(n));
            }
            n as usize
        },
        None => body.network_data.len() / 8,
    };
    if body.network_data.len() >= 0x1000_0000 {
        return Err(NetworkError::StreamTooLarge(body.network_data.len()));
    }
    let mut max_channels: i32 = match find_int_property(header, "MaxChannels") {
        Some(v) => v,
        None => 1023,
    };
    if max_channels < 1 {
        max_channels = 1023;
    }
    let width = channel_width(max_channels as u32);
    let infos = build_class_graph(&body.objects, &body.net_cache)?;
    proof {
        assert forall|i: int| 0 <= i < infos@.len() implies class_info_basic(
            #[trigger] infos@[i],
            body.objects.deep_view(),
        ) by {
            assert(class_info_ok(
                infos@[i],
                net_cache_view(body.net_cache@),
                body.objects.deep_view(),
                i,
            ));
        }
    }
    let frames = decode_frames(
        body.network_data,
        frame_bound,
        width,
        &body.objects,
        &body.class_indices,
        &infos,
        header.major_version,
        header.minor_version,
        match header.net_version {
            Some(v) => v,
            None => 0,
        },
    )?;
    Ok(NetworkFrames { frames })
}

} // verus!
