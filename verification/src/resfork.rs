//! Classic Macintosh resource forks: a header, resource data and a
//! resource map that indexes the resources by four-character type and ID.

use vstd::prelude::*;
use vstd::string::StringSliceAdditionalSpecFns;
use std::collections::HashMap;
use crate::bytes::{be_u16, be_i16, be_u32, get_u16, get_i16, get_u32};
use crate::records::read_array;
use crate::parse::read_bytes;
use crate::course_file::{lossy_decode, lossy_string, byte_char};

verus! {

/// Errors that can occur when parsing resource forks.
#[derive(Debug, Clone, PartialEq, Eq)]
pub enum ResourceError {
    /// A read went past the end of the fork.
    Io,
    /// Invalid resource fork header.
    InvalidHeader,
    /// Invalid resource type.
    InvalidType(String),
    /// Resource not found: type and id.
    NotFound(String, i16),
    /// Invalid resource data.
    InvalidData,
}

/// A four-character code (OSType) used to identify resource types.
#[derive(Debug, Clone, Copy, PartialEq, Eq, Hash)]
pub struct ResType(pub [u8; 4]);

/// The four bytes of a type code made from `b`: its first four bytes,
/// padded with spaces when shorter.
pub open spec fn padded_code(b: Seq<u8>) -> Seq<u8> {
    Seq::new(4, |i: int| if i < b.len() { b[i] } else { 0x20u8 })
}

/// The code of a resource type as a big-endian 32-bit number.
pub open spec fn type_code(t: ResType) -> u32 {
    be_u32(t.0@, 0) as u32
}

impl ResType {
    /// Creates a new resource type from a four-character code.
    pub fn new(code: &[u8; 4]) -> (t: Self)
        ensures
            t.0@ == code@,
    {
        ResType(*code)
    }

    /// Creates a resource type from a string: its first four bytes, padded
    /// with spaces when shorter.
    pub fn from_str(s: &str) -> (t: Self)
        ensures
            forall|i: int| 0 <= i < 4 ==> #[trigger] t.0@[i] == (if i < s.spec_bytes().len() { s.spec_bytes()[i] } else { 0x20u8 }),
    {
        let bytes = s.as_bytes();
        let mut code = [0x20u8; 4];
        let len = if bytes.len() < 4 { bytes.len() } else { 4 };
        let mut i: usize = 0;
        while i < len
            invariant
                len <= 4,
                len <= bytes@.len(),
                bytes@ == s.spec_bytes(),
                i <= len,
                code@.len() == 4,
                forall|j: int| 0 <= j < 4 ==> #[trigger] code@[j] == (if j < i { bytes@[j] } else { 0x20u8 }),
            decreases len - i,
        {
            code[i] = bytes[i];
            i += 1;
        }
        assert(code@ =~= padded_code(bytes@));
        ResType(code)
    }

    /// Returns the type code as a string (its bytes decoded lossily as
    /// UTF-8).
    pub fn as_str(&self) -> (r: String)
        ensures
            r@ == lossy_decode(self.0@),
    {
        lossy_string(&self.0)
    }

    /// The resource type whose big-endian code is `c`.
    pub fn from_code(c: u32) -> (t: Self)
        ensures
            type_code(t) == c,
    {
        let t = ResType([(c >> 24) as u8, (c >> 16) as u8, (c >> 8) as u8, c as u8]);
        assert(t.0@[0] as int * 0x1000000 + t.0@[1] as int * 0x10000 + t.0@[2] as int * 0x100 + t.0@[3] as int == c) by {
            let a = (c >> 24) as u8;
            let b = (c >> 16) as u8;
            let d = (c >> 8) as u8;
            let e = c as u8;
            assert(a as u32 * 0x1000000 + b as u32 * 0x10000 + d as u32 * 0x100 + e as u32 == c) by (bit_vector)
                requires a == (c >> 24) as u8, b == (c >> 16) as u8, d == (c >> 8) as u8, e == c as u8;
        }
        t
    }

    /// The code as a big-endian 32-bit number.
    pub fn code(&self) -> (c: u32)
        ensures
            c == type_code(*self),
    {
        let b = &self.0;
        let v = get_u32(b, 0);
        match v {
            Some(c) => c,
            None => 0,
        }
    }
}

/// A single resource within the resource fork.
#[derive(Debug, Clone)]
pub struct Resource {
    /// Resource type (four-character code).
    pub res_type: ResType,
    /// Resource ID.
    pub id: i16,
    /// Resource name (if present).
    pub name: Option<String>,
    /// Raw resource data.
    pub data: Vec<u8>,
}

/// What a resource holds, as plain values.
pub struct ResourceView {
    pub res_type: Seq<u8>,
    pub id: i16,
    pub name: Option<Seq<char>>,
    pub data: Seq<u8>,
}

/// The view of a resource.
pub open spec fn res_view(r: Resource) -> ResourceView {
    ResourceView {
        res_type: r.res_type.0@,
        id: r.id,
        name: match r.name {
            Some(n) => Some(n@),
            None => None,
        },
        data: r.data@,
    }
}

/// The resources of one type, by ID.
pub open spec fn inner_view(h: HashMap<i16, Resource>) -> Map<i16, ResourceView> {
    Map::new(|i: i16| h@.contains_key(i), |i: i16| res_view(h@[i]))
}

/// The resources of a fork, by type code and ID.
pub open spec fn outer_view(h: HashMap<u32, HashMap<i16, Resource>>) -> Map<u32, Map<i16, ResourceView>> {
    Map::new(|k: u32| h@.contains_key(k), |k: u32| inner_view(h@[k]))
}

/// The data of the resource whose entry holds `raw` (attributes in the
/// high byte, then a 24-bit offset from the data section at `base`): a
/// 32-bit length and that many bytes.
pub open spec fn res_data_at(s: Seq<u8>, base: int, raw: u32) -> Option<Seq<u8>> {
    let p = base + (raw as int % 0x100_0000);
    if p + 4 <= s.len() && p + 4 + be_u32(s, p) <= s.len() {
        Some(s.subrange(p + 4, p + 4 + be_u32(s, p)))
    } else {
        None
    }
}

/// The first `n` entries of the reference list at `rl` for type `t`,
/// inserted in order by ID (a later entry replaces an earlier one with the
/// same ID), or `None` when one does not fit.
pub open spec fn refs_map(s: Seq<u8>, base: int, rl: int, t: Seq<u8>, n: nat) -> Option<Map<i16, ResourceView>>
    decreases n,
{
    if n == 0 {
        Some(Map::empty())
    } else {
        match refs_map(s, base, rl, t, (n - 1) as nat) {
            None => None,
            Some(m) => {
                let r = rl + 12 * (n - 1);
                if r + 12 > s.len() {
                    None
                } else {
                    let id = be_i16(s, r) as i16;
                    match res_data_at(s, base, be_u32(s, r + 4) as u32) {
                        None => None,
                        Some(d) => Some(m.insert(id, ResourceView { res_type: t, id, name: None, data: d })),
                    }
                }
            },
        }
    }
}

/// The first `n` entries of the type list at `tl` (each a type, a count
/// minus one and a reference list offset from the list), inserted in order
/// by type code (a later entry replaces an earlier one with the same code).
pub open spec fn types_map(s: Seq<u8>, base: int, tl: int, n: nat) -> Option<Map<u32, Map<i16, ResourceView>>>
    decreases n,
{
    if n == 0 {
        Some(Map::empty())
    } else {
        match types_map(s, base, tl, (n - 1) as nat) {
            None => None,
            Some(m) => {
                let e = tl + 2 + 8 * (n - 1);
                if e + 8 > s.len() {
                    None
                } else {
                    let rl = tl + be_u16(s, e + 6);
                    match refs_map(s, base, rl, s.subrange(e, e + 4), (be_u16(s, e + 4) + 1) as nat) {
                        None => None,
                        Some(rm) => Some(m.insert(be_u32(s, e) as u32, rm)),
                    }
                }
            },
        }
    }
}

/// The fork stored in `s`: its data offset, map offset and resources, or
/// `None` when a read goes past the end.
pub open spec fn fork_at(s: Seq<u8>) -> Option<(u32, u32, Map<u32, Map<i16, ResourceView>>)> {
    if s.len() < 16 {
        None
    } else {
        let base = be_u32(s, 0);
        let mo = be_u32(s, 4);
        if mo + 26 > s.len() {
            None
        } else {
            let tl = mo + be_u16(s, mo + 22);
            if tl + 2 > s.len() {
                None
            } else {
                match types_map(s, base, tl, (be_u16(s, tl) + 1) as nat) {
                    Some(m) => Some((base as u32, mo as u32, m)),
                    None => None,
                }
            }
        }
    }
}

/// Resource fork contents.
pub struct ResourceFork {
    /// Offset to resource data section.
    data_offset: u32,
    /// Offset to resource map.
    map_offset: u32,
    /// Resources indexed by type code and ID.
    resources: HashMap<u32, HashMap<i16, Resource>>,
    /// The type codes of `resources`, each once, in the order first read.
    type_order: Vec<u32>,
}

/// Total number of resources in a view.
pub open spec fn total(m: Map<u32, Map<i16, ResourceView>>) -> int {
    m.dom().fold(0int, |acc: int, k: u32| acc + m[k].len())
}

impl ResourceFork {
    /// The resources by type code and ID.
    pub closed spec fn view(&self) -> Map<u32, Map<i16, ResourceView>> {
        outer_view(self.resources)
    }

    /// Whether `type_order` lists the types of `resources`, each once.
    pub closed spec fn wf(&self) -> bool {
        &&& self.type_order@.no_duplicates()
        &&& forall|i: int| 0 <= i < self.type_order@.len() ==> self.resources@.contains_key(#[trigger] self.type_order@[i])
        &&& forall|k: u32| self.resources@.contains_key(k) ==> self.type_order@.contains(k)
    }

    /// Offset of the data section.
    pub closed spec fn spec_data_offset(&self) -> u32 {
        self.data_offset
    }

    /// Offset of the resource map.
    pub closed spec fn spec_map_offset(&self) -> u32 {
        self.map_offset
    }

    /// Returns all resource types in this fork, each once, in no
    /// particular order.
    pub fn resource_types(&self) -> (v: Vec<ResType>)
        requires
            self.wf(),
        ensures
            v@.len() == self@.dom().len(),
            forall|i: int| 0 <= i < v@.len() ==> self@.contains_key(#[trigger] type_code(v@[i])),
            forall|k: u32| self@.contains_key(k) ==> exists|i: int| 0 <= i < v@.len() && type_code(v@[i]) == k,
            forall|i: int, j: int| 0 <= i < j < v@.len() ==> type_code(v@[i]) != type_code(v@[j]),
    {
        let mut out: Vec<ResType> = Vec::new();
        let n = self.type_order.len();
        let mut i: usize = 0;
        while i < n
            invariant
                n == self.type_order@.len(),
                i <= n,
                out@.len() == i,
                forall|j: int| 0 <= j < i ==> type_code(#[trigger] out@[j]) == self.type_order@[j],
            decreases n - i,
        {
            out.push(ResType::from_code(self.type_order[i]));
            i += 1;
        }
        proof {
            lemma_order_len(self.type_order@, self.resources@.dom());
            assert(self@.dom() =~= self.resources@.dom());
            assert forall|k: u32| self@.contains_key(k) implies exists|i: int| 0 <= i < out@.len() && type_code(out@[i]) == k by {
                assert(self.resources@.contains_key(k));
                assert(self.type_order@.contains(k));
                let i = choose|i: int| 0 <= i < self.type_order@.len() && self.type_order@[i] == k;
                assert(0 <= i < out@.len());
                assert(type_code(out@[i]) == k);
            }
            assert forall|i: int, j: int| 0 <= i < j < out@.len() implies type_code(out@[i]) != type_code(out@[j]) by {
                assert(type_code(out@[i]) == self.type_order@[i]);
                assert(type_code(out@[j]) == self.type_order@[j]);
            }
        }
        out
    }

    /// Gets a resource by type and ID.
    pub fn get_resource(&self, res_type: ResType, id: i16) -> (r: Option<&Resource>)
        ensures
            match r {
                Some(x) => self@.contains_key(type_code(res_type)) && self@[type_code(res_type)].contains_key(id)
                    && res_view(*x) == self@[type_code(res_type)][id],
                None => !(self@.contains_key(type_code(res_type)) && self@[type_code(res_type)].contains_key(id)),
            },
    {
        broadcast use vstd::std_specs::hash::group_hash_axioms;
        match self.resources.get(&res_type.code()) {
            Some(m) => m.get(&id),
            None => None,
        }
    }

    /// Gets all resources of a specific type, by ID.
    pub fn get_resources_by_type(&self, res_type: ResType) -> (r: Option<&HashMap<i16, Resource>>)
        ensures
            match r {
                Some(m) => self@.contains_key(type_code(res_type)) && inner_view(*m) == self@[type_code(res_type)],
                None => !self@.contains_key(type_code(res_type)),
            },
    {
        broadcast use vstd::std_specs::hash::group_hash_axioms;
        self.resources.get(&res_type.code())
    }

    /// The IDs of the resources of one type, in increasing order (none when
    /// the fork holds no resource of that type).
    pub fn resource_ids(&self, res_type: ResType) -> (v: Vec<i16>)
        ensures
            forall|i: int, j: int| 0 <= i < j < v@.len() ==> v@[i] < v@[j],
            forall|id: i16| v@.contains(id) <==> (self@.contains_key(type_code(res_type))
                && self@[type_code(res_type)].contains_key(id)),
    {
        broadcast use vstd::std_specs::hash::group_hash_axioms;
        let mut v: Vec<i16> = Vec::new();
        let m = match self.get_resources_by_type(res_type) {
            Some(m) => m,
            None => return v,
        };
        let mut k: i32 = -0x8000;
        while k < 0x8000
            invariant
                -0x8000 <= k <= 0x8000,
                self@.contains_key(type_code(res_type)),
                inner_view(*m) == self@[type_code(res_type)],
                forall|i: int, j: int| 0 <= i < j < v@.len() ==> v@[i] < v@[j],
                forall|i: int| 0 <= i < v@.len() ==> v@[i] < k,
                forall|id: i16| v@.contains(id) <==> (id < k && m@.contains_key(id)),
            decreases 0x8000 - k,
        {
            let id = k as i16;
            if m.contains_key(&id) {
                let ghost before = v@;
                v.push(id);
                assert forall|x: i16| v@.contains(x) <==> (x < k + 1 && m@.contains_key(x)) by {
                    if v@.contains(x) && x != id {
                        let j = choose|j: int| 0 <= j < v@.len() && v@[j] == x;
                        assert(j < before.len());
                        assert(before.contains(x));
                    }
                    if x < k && m@.contains_key(x) {
                        assert(before.contains(x));
                        let j = choose|j: int| 0 <= j < before.len() && before[j] == x;
                        assert(v@[j] == x);
                    }
                    if x == id {
                        assert(v@[before.len() as int] == x);
                    }
                }
            } else {
                assert forall|x: i16| v@.contains(x) <==> (x < k + 1 && m@.contains_key(x)) by {
                    if x == id {
                        assert(!m@.contains_key(x));
                    }
                }
            }
            k += 1;
        }
        assert forall|id: i16| v@.contains(id) <==> (self@.contains_key(type_code(res_type))
            && self@[type_code(res_type)].contains_key(id)) by {
            assert(inner_view(*m).contains_key(id) == m@.contains_key(id));
        }
        v
    }

    /// Returns the total number of resources.
    pub fn resource_count(&self) -> (n: usize)
        requires
            self.wf(),
            total(self@) <= usize::MAX,
        ensures
            n == total(self@),
    {
        broadcast use vstd::std_specs::hash::group_hash_axioms;
        let ghost m = self@;
        let ghost ks = self.type_order@;
        let len = self.type_order.len();
        let mut sum: usize = 0;
        let mut i: usize = 0;
        proof {
            lemma_order_len(ks, self.resources@.dom());
            assert(m.dom() =~= self.resources@.dom());
            assert(ks.to_set() =~= m.dom());
            lemma_prefix_sum_fold(m, ks, ks.len());
            assert(ks.take(ks.len() as int) =~= ks);
        }
        while i < len
            invariant
                m == self@,
                ks == self.type_order@,
                len == ks.len(),
                i <= len,
                ks.no_duplicates(),
                forall|j: int| 0 <= j < ks.len() ==> m.contains_key(#[trigger] ks[j]),
                sum == prefix_sum(m, ks, i as int),
                prefix_sum(m, ks, len as int) == total(m),
                total(m) <= usize::MAX,
            decreases len - i,
        {
            let k = self.type_order[i];
            let inner = match self.resources.get(&k) {
                Some(x) => x,
                None => {
                    proof {
                        assert(m.contains_key(ks[i as int]));
                    }
                    return sum;
                },
            };
            proof {
                lemma_prefix_sum_mono(m, ks, i as int + 1, len as int);
                assert(inner_view(*inner).dom() =~= inner@.dom());
            }
            sum = sum + inner.len();
            i += 1;
        }
        sum
    }

    /// Reads the data of the resource whose entry holds `raw`.
    fn read_resource_data(data: &[u8], base: u32, raw: u32) -> (r: Option<Vec<u8>>)
        ensures
            match res_data_at(data@, base as int, raw) {
                Some(d) => r matches Some(v) && v@ == d,
                None => r is None,
            },
    {
        let offset = raw & 0x00FF_FFFF;
        assert(raw & 0x00FF_FFFF == raw % 0x100_0000) by (bit_vector);
        let p: u64 = base as u64 + offset as u64;
        let len = data.len() as u64;
        if p > len || len - p < 4 {
            return None;
        }
        let length = match get_u32(data, p as usize) {
            Some(v) => v,
            None => return None,
        };
        if len - p - 4 < length as u64 {
            return None;
        }
        match read_bytes(data, p as usize + 4, length as usize) {
            Some((v, _)) => Some(v),
            None => None,
        }
    }

    /// Reads a resource name from the name list: names are not decoded.
    fn read_resource_name(_offset: u32) -> (r: Option<String>)
        ensures
            r is None,
    {
        None
    }

    /// Reads `count` entries of the reference list at `rl` for type
    /// `res_type`, as `refs_map` says; `None` when one does not fit.
    fn read_type_resources(data: &[u8], base: u32, rl: u64, res_type: ResType, count: u64)
        -> (r: Option<HashMap<i16, Resource>>)
        requires
            count <= 0x10000,
            rl <= 0x1_0002_0000,
        ensures
            match refs_map(data@, base as int, rl as int, res_type.0@, count as nat) {
                Some(m) => r matches Some(h) && inner_view(h) == m,
                None => r is None,
            },
    {
        broadcast use vstd::std_specs::hash::group_hash_axioms;
        let ghost s = data@;
        let len = data.len() as u64;
        let mut type_resources: HashMap<i16, Resource> = HashMap::new();
        assert(inner_view(type_resources) =~= Map::empty());
        let mut j: u64 = 0;
        while j < count
            invariant
                s == data@,
                len == data@.len(),
                count <= 0x10000,
                rl <= 0x1_0002_0000,
                j <= count,
                refs_map(s, base as int, rl as int, res_type.0@, j as nat) == Some(inner_view(type_resources)),
            decreases count - j,
        {
            let r = rl + 12 * j;
            if r + 12 > len {
                proof {
                    lemma_refs_none(s, base as int, rl as int, res_type.0@, (j + 1) as nat, count as nat);
                }
                return None;
            }
            let id = match get_i16(data, r as usize) { Some(v) => v, None => return None };
            let name_offset = match get_i16(data, (r + 2) as usize) { Some(v) => v, None => return None };
            let data_offset_raw = match get_u32(data, (r + 4) as usize) { Some(v) => v, None => return None };
            let _reserved = match get_u32(data, (r + 8) as usize) { Some(v) => v, None => return None };
            let name = if name_offset >= 0 { Self::read_resource_name(name_offset as u32) } else { None };
            let bytes = match Self::read_resource_data(data, base, data_offset_raw) {
                Some(v) => v,
                None => {
                    proof {
                        lemma_refs_none(s, base as int, rl as int, res_type.0@, (j + 1) as nat, count as nat);
                    }
                    return None;
                },
            };
            let ghost before = inner_view(type_resources);
            let ghost bv = bytes@;
            type_resources.insert(id, Resource { res_type, id, name, data: bytes });
            proof {
                assert(inner_view(type_resources) =~= before.insert(id, ResourceView { res_type: res_type.0@, id, name: None, data: bv }));
            }
            j += 1;
        }
        Some(type_resources)
    }

    /// Parses a resource fork: the header's data and map offsets, then each
    /// type of the map's type list with each entry of its reference list
    /// (ID, name offset, attributes and data offset); `Io` when a read goes
    /// past the end.
    #[verifier::rlimit(40)]
    pub fn from_bytes(data: &[u8]) -> (r: Result<ResourceFork, ResourceError>)
        ensures
            match fork_at(data@) {
                Some((base, mo, m)) => r matches Ok(f) && f.wf() && f.spec_data_offset() == base && f.spec_map_offset() == mo
                    && f.view() == m,
                None => r matches Err(e) && e == ResourceError::Io,
            },
    {
        broadcast use vstd::std_specs::hash::group_hash_axioms;
        let ghost s = data@;
        let data_offset = match get_u32(data, 0) { Some(v) => v, None => return Err(ResourceError::Io) };
        let map_offset = match get_u32(data, 4) { Some(v) => v, None => return Err(ResourceError::Io) };
        let _data_length = match get_u32(data, 8) { Some(v) => v, None => return Err(ResourceError::Io) };
        let _map_length = match get_u32(data, 12) { Some(v) => v, None => return Err(ResourceError::Io) };
        let len = data.len() as u64;
        let mo = map_offset as u64;
        if mo + 26 > len {
            return Err(ResourceError::Io);
        }
        let type_list_offset = match get_u16(data, (mo + 22) as usize) { Some(v) => v, None => return Err(ResourceError::Io) };
        let _name_list_offset = match get_u16(data, (mo + 24) as usize) { Some(v) => v, None => return Err(ResourceError::Io) };
        let tl = mo + type_list_offset as u64;
        if tl + 2 > len {
            return Err(ResourceError::Io);
        }
        let type_count = match get_u16(data, tl as usize) { Some(v) => v as u64 + 1, None => return Err(ResourceError::Io) };
        let ghost target = types_map(s, data_offset as int, tl as int, type_count as nat);
        assert(fork_at(s) == match target {
            Some(m) => Some((data_offset, map_offset, m)),
            None => None::<(u32, u32, Map<u32, Map<i16, ResourceView>>)>,
        });
        let mut resources: HashMap<u32, HashMap<i16, Resource>> = HashMap::new();
        let mut type_order: Vec<u32> = Vec::new();
        let mut t: u64 = 0;
        assert(outer_view(resources) =~= Map::empty());
        while t < type_count
            invariant
                s == data@,
                len == data@.len(),
                tl <= 0x1_0001_0000,
                type_count <= 0x10000,
                t <= type_count,
                target == types_map(s, data_offset as int, tl as int, type_count as nat),
                fork_at(s) == match target {
                    Some(m) => Some((data_offset, map_offset, m)),
                    None => None::<(u32, u32, Map<u32, Map<i16, ResourceView>>)>,
                },
                types_map(s, data_offset as int, tl as int, t as nat) == Some(outer_view(resources)),
                type_order@.no_duplicates(),
                forall|i: int| 0 <= i < type_order@.len() ==> resources@.contains_key(#[trigger] type_order@[i]),
                forall|k: u32| resources@.contains_key(k) ==> type_order@.contains(k),
            decreases type_count - t,
        {
            let e = tl + 2 + 8 * t;
            if e + 8 > len {
                proof {
                    lemma_types_none(s, data_offset as int, tl as int, (t + 1) as nat, type_count as nat);
                }
                return Err(ResourceError::Io);
            }
            let (type_code, _) = match read_array::<4>(data, e as usize) { Some(v) => v, None => return Err(ResourceError::Io) };
            let res_type = ResType::new(&type_code);
            let code = match get_u32(data, e as usize) { Some(v) => v, None => return Err(ResourceError::Io) };
            let resource_count = match get_u16(data, (e + 4) as usize) { Some(v) => v as u64 + 1, None => return Err(ResourceError::Io) };
            let ref_list_offset = match get_u16(data, (e + 6) as usize) { Some(v) => v, None => return Err(ResourceError::Io) };
            let rl = tl + ref_list_offset as u64;
            let type_resources = match Self::read_type_resources(data, data_offset, rl, res_type, resource_count) {
                Some(h) => h,
                None => {
                    proof {
                        lemma_types_none(s, data_offset as int, tl as int, (t + 1) as nat, type_count as nat);
                    }
                    return Err(ResourceError::Io);
                },
            };
            let ghost before = outer_view(resources);
            let ghost rm = inner_view(type_resources);
            let ghost old_order = type_order@;
            let ghost old_keys = resources@;
            if !resources.contains_key(&code) {
                type_order.push(code);
                proof {
                    assert forall|i: int| 0 <= i < old_order.len() implies old_order[i] != code by {}
                }
            }
            resources.insert(code, type_resources);
            proof {
                assert forall|k: u32| resources@.contains_key(k) implies type_order@.contains(k) by {
                    if k != code {
                        assert(old_keys.contains_key(k));
                        assert(old_order.contains(k));
                        let i = choose|i: int| 0 <= i < old_order.len() && old_order[i] == k;
                        assert(type_order@[i] == k);
                    } else {
                        if old_order.contains(code) {
                            let i = choose|i: int| 0 <= i < old_order.len() && old_order[i] == code;
                            assert(type_order@[i] == code);
                        } else {
                            assert(type_order@[type_order@.len() - 1] == code);
                        }
                    }
                }
                assert(outer_view(resources) =~= before.insert(code, rm));
                lemma_types_step(s, data_offset as int, tl as int, t as nat, before, rm);
            }
            t += 1;
        }
        Ok(ResourceFork { data_offset, map_offset, resources, type_order })
    }
}

/// Once a prefix of the reference list fails, every longer prefix fails.
proof fn lemma_refs_none(s: Seq<u8>, base: int, rl: int, t: Seq<u8>, n: nat, m: nat)
    requires
        refs_map(s, base, rl, t, n) is None,
        n <= m,
    ensures
        refs_map(s, base, rl, t, m) is None,
    decreases m - n,
{
    if n < m {
        lemma_refs_none(s, base, rl, t, n, (m - 1) as nat);
    }
}

/// The number of resources of the first `n` types of `ks`.
pub open spec fn prefix_sum(m: Map<u32, Map<i16, ResourceView>>, ks: Seq<u32>, n: int) -> int
    decreases n,
{
    if n <= 0 {
        0
    } else {
        prefix_sum(m, ks, n - 1) + m[ks[n - 1]].len()
    }
}

proof fn lemma_prefix_sum_mono(m: Map<u32, Map<i16, ResourceView>>, ks: Seq<u32>, a: int, b: int)
    requires
        0 <= a <= b,
    ensures
        prefix_sum(m, ks, a) <= prefix_sum(m, ks, b),
    decreases b - a,
{
    if a < b {
        lemma_prefix_sum_mono(m, ks, a, b - 1);
    }
}

/// Summing the resource counts of distinct types in list order gives the
/// fold over the set of those types.
proof fn lemma_prefix_sum_fold(m: Map<u32, Map<i16, ResourceView>>, ks: Seq<u32>, n: nat)
    requires
        ks.no_duplicates(),
        n <= ks.len(),
    ensures
        prefix_sum(m, ks, n as int) == ks.take(n as int).to_set().fold(0int, |acc: int, k: u32| acc + m[k].len()),
    decreases n,
{
    let f = |acc: int, k: u32| acc + m[k].len();
    if n == 0 {
        assert(ks.take(0).to_set() =~= Set::empty());
        vstd::set::fold::lemma_fold_empty::<u32, int>(0int, f);
    } else {
        lemma_prefix_sum_fold(m, ks, (n - 1) as nat);
        let prev = ks.take(n - 1).to_set();
        assert(ks.take(n as int).to_set() =~= prev.insert(ks[n - 1])) by {
            assert(ks.take(n as int) =~= ks.take(n - 1).push(ks[n - 1]));
            ks.take(n - 1).lemma_push_to_set_commute(ks[n - 1]);
        }
        assert(!prev.contains(ks[n - 1])) by {
            if prev.contains(ks[n - 1]) {
                let j = choose|j: int| 0 <= j < n - 1 && #[trigger] ks.take(n - 1)[j] == ks[n - 1];
                assert(ks[j] == ks[n - 1]);
            }
        }
        assert(vstd::set::fold::is_fun_commutative(f));
        vstd::seq_lib::seq_to_set_is_finite(ks.take(n - 1));
        vstd::set::fold::lemma_fold_insert(prev, 0int, f, ks[n - 1]);
    }
}

/// Whether every resource of `m` is filed under its own ID and has type
/// bytes `t`, with no name.
pub open spec fn refs_filed(m: Map<i16, ResourceView>, t: Seq<u8>) -> bool {
    forall|id: i16| #[trigger] m.contains_key(id) ==> m[id].id == id && m[id].res_type == t && m[id].name is None
}

proof fn lemma_refs_filed(s: Seq<u8>, base: int, rl: int, t: Seq<u8>, n: nat)
    ensures
        refs_map(s, base, rl, t, n) matches Some(m) ==> refs_filed(m, t),
    decreases n,
{
    if n > 0 {
        lemma_refs_filed(s, base, rl, t, (n - 1) as nat);
    }
}

/// Whether every resource of `m` is filed under its own ID and under the
/// code of its own type.
pub open spec fn all_filed(m: Map<u32, Map<i16, ResourceView>>) -> bool {
    forall|k: u32, id: i16| #[trigger] m.contains_key(k) && #[trigger] m[k].contains_key(id) ==> {
        &&& m[k][id].id == id
        &&& m[k][id].res_type.len() == 4
        &&& be_u32(m[k][id].res_type, 0) == k
        &&& m[k][id].name is None
    }
}

proof fn lemma_filed_insert(m: Map<u32, Map<i16, ResourceView>>, k: u32, rm: Map<i16, ResourceView>, t: Seq<u8>)
    requires
        all_filed(m),
        refs_filed(rm, t),
        t.len() == 4,
        be_u32(t, 0) == k,
    ensures
        all_filed(m.insert(k, rm)),
{
    let m2 = m.insert(k, rm);
    assert forall|k2: u32, id: i16| #[trigger] m2.contains_key(k2) && #[trigger] m2[k2].contains_key(id) implies {
        &&& m2[k2][id].id == id
        &&& m2[k2][id].res_type.len() == 4
        &&& be_u32(m2[k2][id].res_type, 0) == k2
        &&& m2[k2][id].name is None
    } by {
        if k2 == k {
            assert(rm.contains_key(id));
        } else {
            assert(m.contains_key(k2) && m[k2].contains_key(id));
        }
    }
}

proof fn lemma_types_filed(s: Seq<u8>, base: int, tl: int, n: nat)
    requires
        tl >= 0,
    ensures
        types_map(s, base, tl, n) matches Some(m) ==> all_filed(m),
    decreases n,
{
    if n > 0 {
        lemma_types_filed(s, base, tl, (n - 1) as nat);
        match types_map(s, base, tl, (n - 1) as nat) {
            Some(m) => {
                let e = tl + 2 + 8 * (n - 1);
                if e + 8 <= s.len() {
                    let t = s.subrange(e, e + 4);
                    let rl = tl + be_u16(s, e + 6);
                    let count = (be_u16(s, e + 4) + 1) as nat;
                    lemma_refs_filed(s, base, rl, t, count);
                    assert(t[0] == s[e] && t[1] == s[e + 1] && t[2] == s[e + 2] && t[3] == s[e + 3]);
                    assert(be_u32(t, 0) == be_u32(s, e));
                    assert(0 <= be_u32(s, e) < 0x1_0000_0000);
                    match refs_map(s, base, rl, t, count) {
                        Some(rm) => lemma_filed_insert(m, be_u32(s, e) as u32, rm, t),
                        None => {},
                    }
                }
            },
            None => {},
        }
    }
}

/// Every resource of a parsed fork is filed under its own ID, under the
/// code of its own type, and has no name: what a lookup by type and ID
/// returns is the resource with that type and ID.
pub proof fn law_resources_filed(s: Seq<u8>)
    requires
        fork_at(s) is Some,
    ensures
        all_filed((fork_at(s)->0).2),
{
    let base = be_u32(s, 0);
    let mo = be_u32(s, 4);
    let tl = mo + be_u16(s, mo + 22);
    lemma_types_filed(s, base, tl, (be_u16(s, tl) + 1) as nat);
}

/// A list of distinct keys, each in a set and holding each of its members,
/// has the set's size.
proof fn lemma_order_len(ks: Seq<u32>, d: Set<u32>)
    requires
        ks.no_duplicates(),
        forall|i: int| 0 <= i < ks.len() ==> d.contains(#[trigger] ks[i]),
        forall|k: u32| d.contains(k) ==> ks.contains(k),
    ensures
        ks.len() == d.len(),
{
    ks.unique_seq_to_set();
    assert(ks.to_set() =~= d);
}

/// Reading one more entry of the type list.
proof fn lemma_types_step(s: Seq<u8>, base: int, tl: int, n: nat, m: Map<u32, Map<i16, ResourceView>>,
    rm: Map<i16, ResourceView>)
    requires
        types_map(s, base, tl, n) == Some(m),
        tl + 2 + 8 * n + 8 <= s.len(),
        refs_map(s, base, tl + be_u16(s, tl + 2 + 8 * n + 6), s.subrange(tl + 2 + 8 * n, tl + 2 + 8 * n + 4),
            (be_u16(s, tl + 2 + 8 * n + 4) + 1) as nat) == Some(rm),
    ensures
        types_map(s, base, tl, n + 1) == Some(m.insert(be_u32(s, tl + 2 + 8 * n) as u32, rm)),
{
}

/// Once a prefix of the type list fails, every longer prefix fails.
proof fn lemma_types_none(s: Seq<u8>, base: int, tl: int, n: nat, m: nat)
    requires
        types_map(s, base, tl, n) is None,
        n <= m,
    ensures
        types_map(s, base, tl, m) is None,
    decreases m - n,
{
    if n < m {
        lemma_types_none(s, base, tl, n, (m - 1) as nat);
    }
}

/// A resource type made from a four-character ASCII string reads back as
/// that string, and a type code of ASCII bytes reads back as a string that
/// makes the same type.
pub proof fn law_res_type_text(s: &str, code: Seq<u8>)
    requires
        vstd::string::is_ascii(s),
        s@.len() == 4,
        code.len() == 4,
        forall|i: int| 0 <= i < 4 ==> #[trigger] code[i] < 0x80,
    ensures
        lossy_decode(padded_code(s.spec_bytes())) == s@,
        padded_code(vstd::utf8::encode_utf8(lossy_decode(code))) == code,
{
    broadcast use vstd::string::is_ascii_spec_bytes;
    let b = s.spec_bytes();
    assert(vstd::string::is_ascii(s) ==> b =~= Seq::new(s@.len(), |i: int| s@.index(i) as u8));
    let p = padded_code(b);
    assert forall|i: int| 0 <= i < 4 implies #[trigger] p[i] < 0x80 && byte_char(p[i]) == s@[i] by {
        let c = s@[i];
        assert('\0' <= c <= '\u{7f}');
        assert(p[i] == c as u8);
    }
    assert(lossy_decode(p) =~= s@);
    let chars = lossy_decode(code);
    assert(chars =~= Seq::new(4, |i: int| byte_char(code[i])));
    assert(vstd::utf8::is_ascii_chars(chars));
    vstd::utf8::is_ascii_chars_encode_utf8(chars);
    assert(padded_code(vstd::utf8::encode_utf8(chars)) =~= code);
}

/// Where a resource's data lies: for a reference entry whose word holds
/// attribute byte `attrs` above a 24-bit data offset `off`, the data is the
/// block at `base + off` (a 32-bit length, then that many bytes), whatever
/// the attributes and however large the offset; the entry has no data when
/// that block does not fit.
pub proof fn law_resource_data_offset(s: Seq<u8>, base: int, attrs: u8, off: int)
    requires
        0 <= off < 0x100_0000,
    ensures
        ({
            let at = base + off;
            let raw = (attrs as int * 0x100_0000 + off) as u32;
            &&& (at + 4 <= s.len() && at + 4 + be_u32(s, at) <= s.len()) ==>
                res_data_at(s, base, raw) == Some(s.subrange(at + 4, at + 4 + be_u32(s, at)))
            &&& !(at + 4 <= s.len() && at + 4 + be_u32(s, at) <= s.len()) ==> res_data_at(s, base, raw) is None
        }),
{
    let raw = (attrs as int * 0x100_0000 + off) as u32;
    assert(raw as int == attrs as int * 0x100_0000 + off);
    assert((attrs as int * 0x100_0000 + off) % 0x100_0000 == off) by (nonlinear_arith)
        requires 0 <= off < 0x100_0000, attrs >= 0;
}

} // verus!
