//! Mock host state: the defaults a guest reads when no expectation
//! overrides them, and the state that documented host-call side effects
//! mutate.
//!
//! The state lives for a whole test run. `set_default_*` updates are sticky
//! across callbacks until the matching `reset_*` or a full `reset` is
//! called; the matching process itself only mutates it through documented
//! side effects (a tick-period change, a header-map write, a recorded local
//! response).

use vstd::prelude::*;
use crate::bytes::bytes_clone;
use crate::bytes::pairs_clone;
use crate::bytes::bytes_eq;
use crate::types::AbiVersion;
use crate::types::BufferType;
use crate::types::MapType;
use crate::types::buffer_type_code;
use crate::types::map_type_code;
use crate::types::spec_buffer_type_code;
use crate::types::spec_map_type_code;

verus! {

/// How many buffer kinds the host serves.
pub const BUFFER_KIND_COUNT: usize = 9;

/// How many header map kinds the host serves.
pub const MAP_KIND_COUNT: usize = 8;

/// The value of `key` in an ordered header map: the value of its first
/// occurrence, if any.
pub open spec fn spec_map_lookup(map: Seq<(Seq<u8>, Seq<u8>)>, key: Seq<u8>) -> Option<Seq<u8>>
    decreases map.len(),
{
    if map.len() == 0 {
        None
    } else if map[0].0 == key {
        Some(map[0].1)
    } else {
        spec_map_lookup(map.drop_first(), key)
    }
}

/// The map with the value of the first occurrence of `key` replaced, or the
/// pair appended when the key is absent.
pub open spec fn spec_map_replace(map: Seq<(Seq<u8>, Seq<u8>)>, key: Seq<u8>, value: Seq<u8>) -> Seq<
    (Seq<u8>, Seq<u8>),
>
    decreases map.len(),
{
    if map.len() == 0 {
        seq![(key, value)]
    } else if map[0].0 == key {
        seq![(key, value)] + map.drop_first()
    } else {
        seq![map[0]] + spec_map_replace(map.drop_first(), key, value)
    }
}

/// The map with every occurrence of `key` removed.
pub open spec fn spec_map_remove(map: Seq<(Seq<u8>, Seq<u8>)>, key: Seq<u8>) -> Seq<
    (Seq<u8>, Seq<u8>),
>
    decreases map.len(),
{
    if map.len() == 0 {
        Seq::empty()
    } else if map[0].0 == key {
        spec_map_remove(map.drop_first(), key)
    } else {
        seq![map[0]] + spec_map_remove(map.drop_first(), key)
    }
}

/// Look a key up in an ordered header map.
pub fn map_lookup(map: &Vec<(Vec<u8>, Vec<u8>)>, key: &Vec<u8>) -> (r: Option<Vec<u8>>)
    ensures
        r.deep_view() == spec_map_lookup(map.deep_view(), key@),
{
    let ghost dv = map.deep_view();
    let mut i: usize = 0;
    proof {
        assert(dv.skip(0) =~= dv);
    }
    while i < map.len()
        invariant
            i <= map@.len(),
            dv == map.deep_view(),
            dv.len() == map@.len(),
            spec_map_lookup(dv, key@) == spec_map_lookup(dv.skip(i as int), key@),
        decreases map@.len() - i,
    {
        proof {
            assert(dv.skip(i as int)[0] == dv[i as int]);
            assert(dv[i as int] == (map@[i as int].0@, map@[i as int].1@));
            assert(dv.skip(i as int).drop_first() =~= dv.skip(i + 1 as int));
        }
        if bytes_eq(&map[i].0, key) {
            let value = bytes_clone(&map[i].1);
            proof {
                assert(value.deep_view() =~= value@);
            }
            return Some(value);
        }
        i += 1;
    }
    proof {
        assert(dv.skip(map@.len() as int) =~= Seq::<(Seq<u8>, Seq<u8>)>::empty());
    }
    None
}

/// Replace the first occurrence of `key`, or append the pair when absent.
pub fn map_replace(map: &mut Vec<(Vec<u8>, Vec<u8>)>, key: &Vec<u8>, value: &Vec<u8>)
    ensures
        final(map).deep_view() == spec_map_replace(old(map).deep_view(), key@, value@),
{
    let ghost dv = old(map).deep_view();
    let mut out: Vec<(Vec<u8>, Vec<u8>)> = Vec::new();
    let mut replaced = false;
    let mut i: usize = 0;
    proof {
        assert(dv.skip(0) =~= dv);
        assert(out.deep_view() =~= Seq::<(Seq<u8>, Seq<u8>)>::empty());
        assert(Seq::<(Seq<u8>, Seq<u8>)>::empty() + spec_map_replace(dv, key@, value@)
            =~= spec_map_replace(dv, key@, value@));
    }
    while i < map.len()
        invariant
            i <= map@.len(),
            dv == map.deep_view(),
            dv.len() == map@.len(),
            replaced ==> spec_map_replace(dv, key@, value@) == out.deep_view() + dv.skip(i as int),
            !replaced ==> spec_map_replace(dv, key@, value@) == out.deep_view() + spec_map_replace(
                dv.skip(i as int),
                key@,
                value@,
            ),
        decreases map@.len() - i,
    {
        proof {
            assert(dv.skip(i as int)[0] == dv[i as int]);
            assert(dv[i as int] == (map@[i as int].0@, map@[i as int].1@));
            assert(dv.skip(i as int).drop_first() =~= dv.skip(i + 1 as int));
        }
        let ghost out_prev = out.deep_view();
        if !replaced && bytes_eq(&map[i].0, key) {
            out.push((bytes_clone(key), bytes_clone(value)));
            replaced = true;
            proof {
                assert(out.deep_view() =~~= out_prev.push((key@, value@)));
                assert(out_prev + (seq![(key@, value@)] + dv.skip(i + 1 as int)) =~= (out_prev
                    + seq![(key@, value@)]) + dv.skip(i + 1 as int));
                assert(out_prev.push((key@, value@)) =~= out_prev + seq![(key@, value@)]);
            }
        } else {
            out.push((bytes_clone(&map[i].0), bytes_clone(&map[i].1)));
            proof {
                assert(out.deep_view() =~~= out_prev.push(dv[i as int]));
                assert(out_prev.push(dv[i as int]) =~= out_prev + seq![dv[i as int]]);
                if replaced {
                    assert(dv.skip(i as int) =~= seq![dv[i as int]] + dv.skip(i + 1 as int));
                    assert(out_prev + (seq![dv[i as int]] + dv.skip(i + 1 as int)) =~= (out_prev
                        + seq![dv[i as int]]) + dv.skip(i + 1 as int));
                } else {
                    assert(out_prev + (seq![dv[i as int]] + spec_map_replace(
                        dv.skip(i + 1 as int),
                        key@,
                        value@,
                    )) =~= (out_prev + seq![dv[i as int]]) + spec_map_replace(
                        dv.skip(i + 1 as int),
                        key@,
                        value@,
                    ));
                }
            }
        }
        i += 1;
    }
    proof {
        assert(dv.skip(map@.len() as int) =~= Seq::<(Seq<u8>, Seq<u8>)>::empty());
    }
    if !replaced {
        let ghost out_prev = out.deep_view();
        out.push((bytes_clone(key), bytes_clone(value)));
        proof {
            assert(out.deep_view() =~~= out_prev.push((key@, value@)));
            assert(out_prev.push((key@, value@)) =~= out_prev + seq![(key@, value@)]);
            assert(spec_map_replace(Seq::<(Seq<u8>, Seq<u8>)>::empty(), key@, value@) =~= seq![
                (key@, value@),
            ]);
        }
    } else {
        proof {
            assert(out.deep_view() + Seq::<(Seq<u8>, Seq<u8>)>::empty() =~= out.deep_view());
        }
    }
    *map = out;
}

/// Remove every occurrence of `key`.
pub fn map_remove(map: &mut Vec<(Vec<u8>, Vec<u8>)>, key: &Vec<u8>)
    ensures
        final(map).deep_view() == spec_map_remove(old(map).deep_view(), key@),
{
    let ghost dv = old(map).deep_view();
    let mut out: Vec<(Vec<u8>, Vec<u8>)> = Vec::new();
    let mut i: usize = 0;
    proof {
        assert(dv.skip(0) =~= dv);
        assert(out.deep_view() =~= Seq::<(Seq<u8>, Seq<u8>)>::empty());
        assert(Seq::<(Seq<u8>, Seq<u8>)>::empty() + spec_map_remove(dv, key@) =~= spec_map_remove(
            dv,
            key@,
        ));
    }
    while i < map.len()
        invariant
            i <= map@.len(),
            dv == map.deep_view(),
            dv.len() == map@.len(),
            spec_map_remove(dv, key@) == out.deep_view() + spec_map_remove(
                dv.skip(i as int),
                key@,
            ),
        decreases map@.len() - i,
    {
        proof {
            assert(dv.skip(i as int)[0] == dv[i as int]);
            assert(dv[i as int] == (map@[i as int].0@, map@[i as int].1@));
            assert(dv.skip(i as int).drop_first() =~= dv.skip(i + 1 as int));
        }
        if !bytes_eq(&map[i].0, key) {
            let ghost out_prev = out.deep_view();
            out.push((bytes_clone(&map[i].0), bytes_clone(&map[i].1)));
            proof {
                assert(out.deep_view() =~~= out_prev.push(dv[i as int]));
                assert(out_prev.push(dv[i as int]) =~= out_prev + seq![dv[i as int]]);
                assert(out_prev + (seq![dv[i as int]] + spec_map_remove(
                    dv.skip(i + 1 as int),
                    key@,
                )) =~= (out_prev + seq![dv[i as int]]) + spec_map_remove(
                    dv.skip(i + 1 as int),
                    key@,
                ));
            }
        }
        i += 1;
    }
    proof {
        assert(dv.skip(map@.len() as int) =~= Seq::<(Seq<u8>, Seq<u8>)>::empty());
        assert(out.deep_view() + Seq::<(Seq<u8>, Seq<u8>)>::empty() =~= out.deep_view());
    }
    *map = out;
}

/// Append a pair to an ordered header map.
pub fn map_add(map: &mut Vec<(Vec<u8>, Vec<u8>)>, key: &Vec<u8>, value: &Vec<u8>)
    ensures
        final(map).deep_view() == old(map).deep_view().push((key@, value@)),
{
    let ghost dv = old(map).deep_view();
    map.push((bytes_clone(key), bytes_clone(value)));
    proof {
        assert(map.deep_view() =~~= dv.push((key@, value@)));
    }
}

fn empty_buffers() -> (r: Vec<Vec<u8>>)
    ensures
        r@.len() == BUFFER_KIND_COUNT,
        forall|i: int| 0 <= i < r@.len() ==> #[trigger] r@[i]@ == Seq::<u8>::empty(),
{
    let mut r: Vec<Vec<u8>> = Vec::new();
    let mut i: usize = 0;
    while i < BUFFER_KIND_COUNT
        invariant
            i <= BUFFER_KIND_COUNT,
            r@.len() == i,
            forall|j: int| 0 <= j < i ==> #[trigger] r@[j]@ == Seq::<u8>::empty(),
        decreases BUFFER_KIND_COUNT - i,
    {
        let fresh: Vec<u8> = Vec::new();
        r.push(fresh);
        i += 1;
    }
    r
}

fn empty_maps() -> (r: Vec<Vec<(Vec<u8>, Vec<u8>)>>)
    ensures
        r@.len() == MAP_KIND_COUNT,
        forall|i: int|
            0 <= i < r@.len() ==> #[trigger] r@[i].deep_view() == Seq::<(Seq<u8>, Seq<u8>)>::empty(),
{
    let mut r: Vec<Vec<(Vec<u8>, Vec<u8>)>> = Vec::new();
    let mut i: usize = 0;
    while i < MAP_KIND_COUNT
        invariant
            i <= MAP_KIND_COUNT,
            r@.len() == i,
            forall|j: int|
                0 <= j < i ==> #[trigger] r@[j].deep_view() == Seq::<(Seq<u8>, Seq<u8>)>::empty(),
        decreases MAP_KIND_COUNT - i,
    {
        let fresh: Vec<(Vec<u8>, Vec<u8>)> = Vec::new();
        proof {
            assert(fresh.deep_view() =~= Seq::<(Seq<u8>, Seq<u8>)>::empty());
        }
        r.push(fresh);
        i += 1;
    }
    r
}

/// Defaults the guest reads when no expectation overrides them, plus the
/// state that documented side effects mutate.
#[derive(Debug)]
pub struct HostSettings {
    pub abi_version: AbiVersion,
    pub tick_period_millis: u64,
    pub buffers: Vec<Vec<u8>>,
    pub header_maps: Vec<Vec<(Vec<u8>, Vec<u8>)>>,
    pub local_response_emitted: bool,
}

impl HostSettings {
    /// One buffer per buffer kind, one map per map kind.
    pub open spec fn wf(&self) -> bool {
        &&& self.buffers@.len() == BUFFER_KIND_COUNT
        &&& self.header_maps@.len() == MAP_KIND_COUNT
    }

    /// The default content of one buffer kind.
    pub open spec fn spec_buffer(&self, buffer_type: BufferType) -> Seq<u8> {
        self.buffers@[spec_buffer_type_code(buffer_type) as int]@
    }

    /// The default content of one header map kind.
    pub open spec fn spec_map(&self, map_type: MapType) -> Seq<(Seq<u8>, Seq<u8>)> {
        self.header_maps@[spec_map_type_code(map_type) as int].deep_view()
    }

    /// Everything a fresh state holds: tick period zero, all buffers and
    /// maps empty, no local response recorded.
    pub open spec fn spec_fresh(&self, abi_version: AbiVersion) -> bool {
        &&& self.wf()
        &&& self.abi_version == abi_version
        &&& self.tick_period_millis == 0
        &&& !self.local_response_emitted
        &&& forall|i: int|
            0 <= i < self.buffers@.len() ==> #[trigger] self.buffers@[i]@ == Seq::<u8>::empty()
        &&& forall|i: int|
            0 <= i < self.header_maps@.len() ==> #[trigger] self.header_maps@[i].deep_view()
                == Seq::<(Seq<u8>, Seq<u8>)>::empty()
    }

    /// Fresh defaults for a guest of the given ABI version.
    pub fn new(abi_version: AbiVersion) -> (settings: HostSettings)
        ensures
            settings.spec_fresh(abi_version),
    {
        HostSettings {
            abi_version,
            tick_period_millis: 0,
            buffers: empty_buffers(),
            header_maps: empty_maps(),
            local_response_emitted: false,
        }
    }

    /// Re-initialize everything from the given ABI version.
    pub fn reset(&mut self, abi_version: AbiVersion)
        ensures
            final(self).spec_fresh(abi_version),
    {
        *self = HostSettings::new(abi_version);
    }

    /// Make the default tick period visible to subsequent callbacks.
    pub fn set_tick_period_millis(&mut self, tick_period_millis: u64)
        ensures
            *final(self) == (HostSettings { tick_period_millis, ..*old(self) }),
    {
        self.tick_period_millis = tick_period_millis;
    }

    /// Drop the default tick period back to zero.
    pub fn reset_tick_period_millis(&mut self)
        ensures
            *final(self) == (HostSettings { tick_period_millis: 0, ..*old(self) }),
    {
        self.tick_period_millis = 0;
    }

    /// Set the default content of one buffer kind.
    pub fn set_buffer_bytes(&mut self, buffer_type: BufferType, data: Vec<u8>)
        requires
            old(self).wf(),
        ensures
            final(self).wf(),
            final(self).spec_buffer(buffer_type) == data@,
            final(self).buffers@.len() == old(self).buffers@.len(),
            forall|i: int|
                0 <= i < old(self).buffers@.len() && i != spec_buffer_type_code(buffer_type) as int
                    ==> #[trigger] final(self).buffers@[i] == old(self).buffers@[i],
            final(self).header_maps == old(self).header_maps,
            final(self).tick_period_millis == old(self).tick_period_millis,
            final(self).abi_version == old(self).abi_version,
            final(self).local_response_emitted == old(self).local_response_emitted,
    {
        let code = buffer_type_code(buffer_type) as usize;
        self.buffers[code] = data;
    }

    /// Empty every default buffer.
    pub fn reset_buffer_bytes(&mut self)
        requires
            old(self).wf(),
        ensures
            final(self).wf(),
            forall|i: int|
                0 <= i < final(self).buffers@.len() ==> #[trigger] final(self).buffers@[i]@
                    == Seq::<u8>::empty(),
            final(self).header_maps == old(self).header_maps,
            final(self).tick_period_millis == old(self).tick_period_millis,
            final(self).abi_version == old(self).abi_version,
            final(self).local_response_emitted == old(self).local_response_emitted,
    {
        self.buffers = empty_buffers();
    }

    /// Set the default pairs of one header map kind.
    pub fn set_header_map_pairs(&mut self, map_type: MapType, pairs: Vec<(Vec<u8>, Vec<u8>)>)
        requires
            old(self).wf(),
        ensures
            final(self).wf(),
            final(self).spec_map(map_type) == pairs.deep_view(),
            final(self).header_maps@.len() == old(self).header_maps@.len(),
            forall|i: int|
                0 <= i < old(self).header_maps@.len() && i != spec_map_type_code(map_type) as int
                    ==> #[trigger] final(self).header_maps@[i] == old(self).header_maps@[i],
            final(self).buffers == old(self).buffers,
            final(self).tick_period_millis == old(self).tick_period_millis,
            final(self).abi_version == old(self).abi_version,
            final(self).local_response_emitted == old(self).local_response_emitted,
    {
        let code = map_type_code(map_type) as usize;
        self.header_maps[code] = pairs;
    }

    /// Empty every default header map.
    pub fn reset_header_map_pairs(&mut self)
        requires
            old(self).wf(),
        ensures
            final(self).wf(),
            forall|i: int|
                0 <= i < final(self).header_maps@.len() ==> #[trigger] final(
                    self
                ).header_maps@[i].deep_view() == Seq::<(Seq<u8>, Seq<u8>)>::empty(),
            final(self).buffers == old(self).buffers,
            final(self).tick_period_millis == old(self).tick_period_millis,
            final(self).abi_version == old(self).abi_version,
            final(self).local_response_emitted == old(self).local_response_emitted,
    {
        self.header_maps = empty_maps();
    }

    /// Copy the default content of one buffer kind.
    pub fn get_buffer_bytes(&self, buffer_type: BufferType) -> (r: Vec<u8>)
        requires
            self.wf(),
        ensures
            r@ == self.spec_buffer(buffer_type),
    {
        let code = buffer_type_code(buffer_type) as usize;
        bytes_clone(&self.buffers[code])
    }

    /// Copy the default pairs of one header map kind.
    pub fn get_header_map_pairs(&self, map_type: MapType) -> (r: Vec<(Vec<u8>, Vec<u8>)>)
        requires
            self.wf(),
        ensures
            r.deep_view() == self.spec_map(map_type),
    {
        let code = map_type_code(map_type) as usize;
        pairs_clone(&self.header_maps[code])
    }

    /// Replace the first occurrence of a key in one header map kind, or
    /// append the pair, so later reads see the written value.
    pub fn apply_map_replace(&mut self, map_type: MapType, key: &Vec<u8>, value: &Vec<u8>)
        requires
            old(self).wf(),
        ensures
            final(self).wf(),
            final(self).spec_map(map_type) == spec_map_replace(
                old(self).spec_map(map_type),
                key@,
                value@,
            ),
            final(self).header_maps@.len() == old(self).header_maps@.len(),
            forall|i: int|
                0 <= i < old(self).header_maps@.len() && i != spec_map_type_code(map_type) as int
                    ==> #[trigger] final(self).header_maps@[i] == old(self).header_maps@[i],
            final(self).buffers == old(self).buffers,
            final(self).tick_period_millis == old(self).tick_period_millis,
            final(self).abi_version == old(self).abi_version,
            final(self).local_response_emitted == old(self).local_response_emitted,
    {
        let code = map_type_code(map_type) as usize;
        let mut m = pairs_clone(&self.header_maps[code]);
        map_replace(&mut m, key, value);
        self.header_maps[code] = m;
    }

    /// Remove every occurrence of a key from one header map kind.
    pub fn apply_map_remove(&mut self, map_type: MapType, key: &Vec<u8>)
        requires
            old(self).wf(),
        ensures
            final(self).wf(),
            final(self).spec_map(map_type) == spec_map_remove(old(self).spec_map(map_type), key@),
            final(self).header_maps@.len() == old(self).header_maps@.len(),
            forall|i: int|
                0 <= i < old(self).header_maps@.len() && i != spec_map_type_code(map_type) as int
                    ==> #[trigger] final(self).header_maps@[i] == old(self).header_maps@[i],
            final(self).buffers == old(self).buffers,
            final(self).tick_period_millis == old(self).tick_period_millis,
            final(self).abi_version == old(self).abi_version,
            final(self).local_response_emitted == old(self).local_response_emitted,
    {
        let code = map_type_code(map_type) as usize;
        let mut m = pairs_clone(&self.header_maps[code]);
        map_remove(&mut m, key);
        self.header_maps[code] = m;
    }

    /// Append a pair to one header map kind.
    pub fn apply_map_add(&mut self, map_type: MapType, key: &Vec<u8>, value: &Vec<u8>)
        requires
            old(self).wf(),
        ensures
            final(self).wf(),
            final(self).spec_map(map_type) == old(self).spec_map(map_type).push((key@, value@)),
            final(self).header_maps@.len() == old(self).header_maps@.len(),
            forall|i: int|
                0 <= i < old(self).header_maps@.len() && i != spec_map_type_code(map_type) as int
                    ==> #[trigger] final(self).header_maps@[i] == old(self).header_maps@[i],
            final(self).buffers == old(self).buffers,
            final(self).tick_period_millis == old(self).tick_period_millis,
            final(self).abi_version == old(self).abi_version,
            final(self).local_response_emitted == old(self).local_response_emitted,
    {
        let code = map_type_code(map_type) as usize;
        let mut m = pairs_clone(&self.header_maps[code]);
        map_add(&mut m, key, value);
        self.header_maps[code] = m;
    }

    /// Record that the guest asked the host to send a local response.
    pub fn mark_local_response(&mut self)
        ensures
            *final(self) == (HostSettings { local_response_emitted: true, ..*old(self) }),
    {
        self.local_response_emitted = true;
    }

    /// Look a key up in the default pairs of one header map kind.
    pub fn get_header_map_value(&self, map_type: MapType, key: &Vec<u8>) -> (r: Option<Vec<u8>>)
        requires
            self.wf(),
        ensures
            r.deep_view() == spec_map_lookup(self.spec_map(map_type), key@),
    {
        let code = map_type_code(map_type) as usize;
        map_lookup(&self.header_maps[code], key)
    }
}

} // verus!
