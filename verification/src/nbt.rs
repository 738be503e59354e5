//! Reading item NBT (the binary "named binary tag" format of protocol 47).
//!
//! A tag is a type byte, a name (u16 big-endian length and bytes) and a
//! payload.  Payload types: 1 byte, 2 short, 3 int, 4 long, 5 float,
//! 6 double, 7 byte array, 8 string, 9 list, 10 compound, 11 int array.
//! Nesting of lists and compounds is limited to `MAX_NBT_DEPTH` levels.
//! The functions here check that bytes hold a well-formed root compound
//! and look values up in it without building a tree.
use vstd::prelude::*;

verus! {

/// Deepest nesting of lists and compounds accepted.
pub const MAX_NBT_DEPTH: usize = 512;

/// The big-endian u16 at `pos`.
pub open spec fn u16_at(b: Seq<u8>, pos: int) -> int {
    b[pos] as int * 256 + b[pos + 1] as int
}

/// The big-endian i16 at `pos`.
pub open spec fn i16_at(b: Seq<u8>, pos: int) -> int {
    let u = u16_at(b, pos);
    if u >= 32768 {
        u - 65536
    } else {
        u
    }
}

/// The big-endian i32 at `pos`.
pub open spec fn i32_at(b: Seq<u8>, pos: int) -> int {
    let u = b[pos] as int * 16777216 + b[pos + 1] as int * 65536 + b[pos + 2] as int * 256 + b[pos + 3] as int;
    if u >= 0x8000_0000 {
        u - 0x1_0000_0000
    } else {
        u
    }
}

/// End of the string (u16 length and bytes) that starts at `pos`.
pub open spec fn string_end(b: Seq<u8>, pos: int) -> Option<int> {
    if 0 <= pos && pos + 2 <= b.len() && pos + 2 + u16_at(b, pos) <= b.len() {
        Some(pos + 2 + u16_at(b, pos))
    } else {
        None
    }
}

/// Payload width of the fixed-size tag types.
pub open spec fn fixed_width(ty: u8) -> int {
    if ty == 1 {
        1
    } else if ty == 2 {
        2
    } else if ty == 3 {
        4
    } else if ty == 4 {
        8
    } else if ty == 5 {
        4
    } else if ty == 6 {
        8
    } else {
        0
    }
}

/// End of a well-formed payload of type `ty` at `pos`, with `d` more
/// levels of nesting allowed.
pub open spec fn payload_end(ty: u8, b: Seq<u8>, pos: int, d: nat) -> Option<int>
    decreases d, 0int, 0int,
{
    if pos < 0 || pos > b.len() {
        None
    } else if 1 <= ty <= 6 {
        if pos + fixed_width(ty) <= b.len() {
            Some(pos + fixed_width(ty))
        } else {
            None
        }
    } else if ty == 7 || ty == 11 {
        if pos + 4 <= b.len() {
            let n = i32_at(b, pos);
            let w = if ty == 7 { n } else { 4 * n };
            if n >= 0 && pos + 4 + w <= b.len() {
                Some(pos + 4 + w)
            } else {
                None
            }
        } else {
            None
        }
    } else if ty == 8 {
        string_end(b, pos)
    } else if ty == 9 {
        if d == 0 || pos + 5 > b.len() {
            None
        } else {
            let n = i32_at(b, pos + 1);
            if n < 0 {
                None
            } else {
                list_end(b[pos], b, pos + 5, n, (d - 1) as nat)
            }
        }
    } else if ty == 10 {
        if d == 0 {
            None
        } else {
            compound_end(b, pos, (d - 1) as nat)
        }
    } else {
        None
    }
}

/// End of `n` payloads of type `et` starting at `pos`.
pub open spec fn list_end(et: u8, b: Seq<u8>, pos: int, n: int, d: nat) -> Option<int>
    decreases d, 1int, n,
{
    if n <= 0 {
        Some(pos)
    } else {
        match payload_end(et, b, pos, d) {
            Some(e) => list_end(et, b, e, n - 1, d),
            None => None,
        }
    }
}

/// End of the entries of a compound starting at `pos` (after its End byte).
pub open spec fn compound_end(b: Seq<u8>, pos: int, d: nat) -> Option<int>
    decreases d, 1int, b.len() - pos,
{
    if pos < 0 || pos >= b.len() {
        None
    } else if b[pos] == 0 {
        Some(pos + 1)
    } else {
        match string_end(b, pos + 1) {
            Some(ne) => match payload_end(b[pos], b, ne, d) {
                Some(e) => if e <= pos || e > b.len() {
                    None
                } else {
                    compound_end(b, e, d)
                },
                None => None,
            },
            None => None,
        }
    }
}

/// Start of the root compound's payload, when `b` begins with a compound
/// tag and its name.
pub open spec fn root_payload(b: Seq<u8>) -> Option<int> {
    if b.len() >= 1 && b[0] == 10 {
        string_end(b, 1)
    } else {
        None
    }
}

/// `b` holds a well-formed root compound.
pub open spec fn root_valid(b: Seq<u8>) -> bool {
    match root_payload(b) {
        Some(p) => payload_end(10, b, p, MAX_NBT_DEPTH as nat) is Some,
        None => false,
    }
}

/// The last entry named `name` among the compound entries from `pos` on:
/// its type and payload position (`found` if there is none).
pub open spec fn compound_lookup(
    b: Seq<u8>,
    pos: int,
    d: nat,
    name: Seq<u8>,
    found: Option<(u8, int)>,
) -> Option<(u8, int)>
    decreases b.len() - pos,
{
    if pos < 0 || pos >= b.len() || b[pos] == 0 {
        found
    } else {
        match string_end(b, pos + 1) {
            Some(ne) => match payload_end(b[pos], b, ne, d) {
                Some(e) => if e <= pos || e > b.len() {
                    found
                } else {
                    compound_lookup(
                        b,
                        e,
                        d,
                        name,
                        if b.subrange(pos + 3, ne) == name {
                            Some((b[pos], ne))
                        } else {
                            found
                        },
                    )
                },
                None => found,
            },
            None => found,
        }
    }
}

/// The entry `name` of the root compound (type and payload position).
pub open spec fn root_lookup(b: Seq<u8>, name: Seq<u8>) -> Option<(u8, int)> {
    compound_lookup(b, root_payload(b)->0, (MAX_NBT_DEPTH - 1) as nat, name, None)
}

fn read_u16(b: &[u8], pos: usize) -> (r: usize)
    requires
        pos + 2 <= b@.len(),
    ensures
        r == u16_at(b@, pos as int),
{
    b[pos] as usize * 256 + b[pos + 1] as usize
}

fn read_i16(b: &[u8], pos: usize) -> (r: i16)
    requires
        pos + 2 <= b@.len(),
    ensures
        r == i16_at(b@, pos as int),
{
    let u = read_u16(b, pos) as i32;
    if u >= 32768 {
        (u - 65536) as i16
    } else {
        u as i16
    }
}

fn read_i32(b: &[u8], pos: usize) -> (r: i64)
    requires
        pos + 4 <= b@.len(),
    ensures
        r == i32_at(b@, pos as int),
{
    let u: i64 = b[pos] as i64 * 16777216 + b[pos + 1] as i64 * 65536 + b[pos + 2] as i64 * 256 + b[pos + 3] as i64;
    if u >= 0x8000_0000 {
        u - 0x1_0000_0000
    } else {
        u
    }
}

/// The end of the string that starts at `pos`, when it fits in `b`.
pub fn string_end_exec(b: &[u8], pos: usize) -> (r: Option<usize>)
    ensures
        r is None <==> string_end(b@, pos as int) is None,
        r matches Some(e) ==> string_end(b@, pos as int) == Some(e as int),
        r matches Some(e) ==> pos + 2 <= e <= b@.len(),
{
    if pos <= b.len() && 2 <= b.len() - pos {
        let n = read_u16(b, pos);
        if n <= b.len() - pos - 2 {
            return Some(pos + 2 + n);
        }
    }
    None
}

/// The end of a well-formed payload of type `ty` at `pos`.
fn payload_end_exec(ty: u8, b: &[u8], pos: usize, d: usize) -> (r: Option<usize>)
    ensures
        r is None <==> payload_end(ty, b@, pos as int, d as nat) is None,
        r matches Some(e) ==> payload_end(ty, b@, pos as int, d as nat) == Some(e as int),
        r matches Some(e) ==> pos <= e <= b@.len(),
    decreases d, 0int,
{
    let len = b.len();
    if pos > len {
        return None;
    }
    if 1 <= ty && ty <= 6 {
        let w: usize = if ty == 1 {
            1
        } else if ty == 2 {
            2
        } else if ty == 3 {
            4
        } else if ty == 4 {
            8
        } else if ty == 5 {
            4
        } else {
            8
        };
        if w <= len - pos {
            Some(pos + w)
        } else {
            None
        }
    } else if ty == 7 || ty == 11 {
        if 4 <= len - pos {
            let n = read_i32(b, pos);
            if n < 0 {
                return None;
            }
            let avail = (len - pos - 4) as u64;
            let w: u64 = if ty == 7 { n as u64 } else { 4 * n as u64 };
            if w <= avail {
                Some(pos + 4 + w as usize)
            } else {
                None
            }
        } else {
            None
        }
    } else if ty == 8 {
        string_end_exec(b, pos)
    } else if ty == 9 {
        if d == 0 || len - pos < 5 {
            return None;
        }
        let n = read_i32(b, pos + 1);
        if n < 0 {
            return None;
        }
        let et = b[pos];
        assert(payload_end(9, b@, pos as int, d as nat) == list_end(et, b@, pos + 5, n as int, (d - 1) as nat));
        let mut p = pos + 5;
        let mut k: i64 = n;
        while k > 0
            invariant
                pos + 5 <= p <= len,
                len == b@.len(),
                d > 0,
                et == b@[pos as int],
                ty == 9,
                payload_end(9, b@, pos as int, d as nat) == list_end(et, b@, pos + 5, n as int, (d - 1) as nat),
                0 <= k <= n,
                list_end(et, b@, p as int, k as int, (d - 1) as nat) == list_end(
                    et,
                    b@,
                    pos + 5,
                    n as int,
                    (d - 1) as nat,
                ),
            decreases k,
        {
            match payload_end_exec(et, b, p, d - 1) {
                Some(e) => {
                    p = e;
                    k = k - 1;
                },
                None => {
                    return None;
                },
            }
        }
        Some(p)
    } else if ty == 10 {
        if d == 0 {
            return None;
        }
        compound_end_exec(b, pos, d - 1)
    } else {
        None
    }
}

/// The end of the compound entries starting at `pos`.
fn compound_end_exec(b: &[u8], pos: usize, d: usize) -> (r: Option<usize>)
    requires
        pos <= b@.len(),
    ensures
        r is None <==> compound_end(b@, pos as int, d as nat) is None,
        r matches Some(e) ==> compound_end(b@, pos as int, d as nat) == Some(e as int),
        r matches Some(e) ==> pos <= e <= b@.len(),
    decreases d, 1int,
{
    let len = b.len();
    let mut p = pos;
    loop
        invariant
            pos <= p <= len,
            len == b@.len(),
            compound_end(b@, p as int, d as nat) == compound_end(b@, pos as int, d as nat),
            pos <= len,
        decreases len - p,
    {
        if p >= len {
            return None;
        }
        let ty = b[p];
        if ty == 0 {
            return Some(p + 1);
        }
        let ne = match string_end_exec(b, p + 1) {
            Some(ne) => ne,
            None => {
                return None;
            },
        };
        let e = match payload_end_exec(ty, b, ne, d) {
            Some(e) => e,
            None => {
                return None;
            },
        };
        if e <= p || e > len {
            return None;
        }
        p = e;
    }
}


/// The short value of entry `name` of the compound whose entries start at
/// `pos`, when that entry is a short.
pub open spec fn compound_short(b: Seq<u8>, pos: int, d: nat, name: Seq<u8>) -> Option<int> {
    match compound_lookup(b, pos, d, name, None) {
        Some(e) => if e.0 == 2 && e.1 + 2 <= b.len() {
            Some(i16_at(b, e.1))
        } else {
            None
        },
        None => None,
    }
}

/// The list entry `name` of the root compound: element type, element
/// count and position of the first element.
pub open spec fn root_list(b: Seq<u8>, name: Seq<u8>) -> Option<(u8, int, int)> {
    match root_lookup(b, name) {
        Some(e) => if e.0 == 9 && e.1 + 5 <= b.len() {
            Some((b[e.1], i32_at(b, e.1 + 1), e.1 + 5))
        } else {
            None
        },
        None => None,
    }
}

/// Whether `b[start..end]` equals `name`.
pub fn bytes_eq_range(b: &[u8], start: usize, end: usize, name: &[u8]) -> (r: bool)
    requires
        start <= end <= b@.len(),
    ensures
        r == (b@.subrange(start as int, end as int) == name@),
{
    if end - start != name.len() {
        return false;
    }
    let mut i: usize = 0;
    while i < name.len()
        invariant
            start <= end <= b@.len(),
            end - start == name@.len(),
            i <= name@.len(),
            forall|j: int| 0 <= j < i ==> b@[start + j] == name@[j],
        decreases name.len() - i,
    {
        if b[start + i] != name[i] {
            assert(b@.subrange(start as int, end as int)[i as int] != name@[i as int]);
            return false;
        }
        i = i + 1;
    }
    assert(b@.subrange(start as int, end as int) =~= name@);
    true
}

/// Payload position of the root compound.
pub fn root_payload_exec(b: &[u8]) -> (r: Option<usize>)
    ensures
        r is None <==> root_payload(b@) is None,
        r matches Some(p) ==> root_payload(b@) == Some(p as int) && p <= b@.len(),
{
    if b.len() >= 1 && b[0] == 10 {
        string_end_exec(b, 1)
    } else {
        None
    }
}

/// Whether `b` holds a well-formed root compound.
pub fn root_valid_exec(b: &[u8]) -> (r: bool)
    ensures
        r == root_valid(b@),
{
    match root_payload_exec(b) {
        Some(p) => payload_end_exec(10, b, p, MAX_NBT_DEPTH).is_some(),
        None => false,
    }
}

/// The last entry `name` of the compound entries starting at `pos`.
pub fn compound_lookup_exec(b: &[u8], pos: usize, d: usize, name: &[u8]) -> (r: Option<(u8, usize)>)
    ensures
        r is None <==> compound_lookup(b@, pos as int, d as nat, name@, None) is None,
        r matches Some(e) ==> compound_lookup(b@, pos as int, d as nat, name@, None) == Some((e.0, e.1 as int))
            && e.1 <= b@.len(),
{
    let len = b.len();
    let mut p = pos;
    let mut found: Option<(u8, usize)> = None;
    let ghost mut gfound: Option<(u8, int)> = None;
    while p < len
        invariant
            len == b@.len(),
            pos <= p,
            gfound == match found {
                Some(f) => Some((f.0, f.1 as int)),
                None => None::<(u8, int)>,
            },
            found matches Some(f) ==> f.1 <= len,
            compound_lookup(b@, p as int, d as nat, name@, gfound) == compound_lookup(
                b@,
                pos as int,
                d as nat,
                name@,
                None,
            ),
        decreases len - p,
    {
        let ty = b[p];
        if ty == 0 {
            return found;
        }
        let ne = match string_end_exec(b, p + 1) {
            Some(ne) => ne,
            None => {
                return found;
            },
        };
        let e = match payload_end_exec(ty, b, ne, d) {
            Some(e) => e,
            None => {
                return found;
            },
        };
        if e <= p || e > len {
            return found;
        }
        if bytes_eq_range(b, p + 3, ne, name) {
            found = Some((ty, ne));
            proof {
                gfound = Some((ty, ne as int));
            }
        }
        p = e;
    }
    found
}

/// The root entry `name` (type and payload position).
pub fn root_lookup_exec(b: &[u8], name: &[u8]) -> (r: Option<(u8, usize)>)
    requires
        root_valid(b@),
    ensures
        r is None <==> root_lookup(b@, name@) is None,
        r matches Some(e) ==> root_lookup(b@, name@) == Some((e.0, e.1 as int)) && e.1 <= b@.len(),
{
    match root_payload_exec(b) {
        Some(p) => compound_lookup_exec(b, p, MAX_NBT_DEPTH - 1, name),
        None => None,
    }
}

/// The short entry `name` of the compound whose entries start at `pos`.
pub fn compound_short_exec(b: &[u8], pos: usize, d: usize, name: &[u8]) -> (r: Option<i16>)
    ensures
        r is None <==> compound_short(b@, pos as int, d as nat, name@) is None,
        r matches Some(v) ==> compound_short(b@, pos as int, d as nat, name@) == Some(v as int),
{
    match compound_lookup_exec(b, pos, d, name) {
        Some((ty, p)) => {
            if ty == 2 && p <= b.len() && 2 <= b.len() - p {
                Some(read_i16(b, p))
            } else if ty == 2 {
                None
            } else {
                None
            }
        },
        None => None,
    }
}

/// The list entry `name` of the root compound.
pub fn root_list_exec(b: &[u8], name: &[u8]) -> (r: Option<(u8, i64, usize)>)
    requires
        root_valid(b@),
    ensures
        r is None <==> root_list(b@, name@) is None,
        r matches Some(e) ==> root_list(b@, name@) == Some((e.0, e.1 as int, e.2 as int)),
{
    match root_lookup_exec(b, name) {
        Some((ty, p)) => {
            if ty == 9 {
                if p <= b.len() && 5 <= b.len() - p {
                    Some((b[p], read_i32(b, p + 1), p + 5))
                } else {
                    None
                }
            } else {
                None
            }
        },
        None => None,
    }
}


/// The entry name "ench" (enchantments of an item).
pub open spec fn name_ench() -> Seq<u8> {
    seq![101u8, 110, 99, 104]
}

/// The entry name "StoredEnchantments" (enchanted books).
pub open spec fn name_stored_enchantments() -> Seq<u8> {
    seq![83u8, 116, 111, 114, 101, 100, 69, 110, 99, 104, 97, 110, 116, 109, 101, 110, 116, 115]
}

/// The entry name "id".
pub open spec fn name_id() -> Seq<u8> {
    seq![105u8, 100]
}

/// The entry name "lvl".
pub open spec fn name_lvl() -> Seq<u8> {
    seq![108u8, 118, 108]
}

/// The entry name "pages".
pub open spec fn name_pages() -> Seq<u8> {
    seq![112u8, 97, 103, 101, 115]
}

/// The entry name "title".
pub open spec fn name_title() -> Seq<u8> {
    seq![116u8, 105, 116, 108, 101]
}

/// The entry name "author".
pub open spec fn name_author() -> Seq<u8> {
    seq![97u8, 117, 116, 104, 111, 114]
}

/// The level of enchantment `id` among the `n` compound elements of an
/// enchantment list starting at `pos`: the `lvl` (at least 0, 0 when
/// absent) of the first element whose `id` is `id`, or 0.
pub open spec fn ench_level_in(b: Seq<u8>, pos: int, n: int, d: nat, id: i16) -> int
    decreases n,
{
    if n <= 0 || d == 0 {
        0
    } else {
        match ench_hit(b, pos, (d - 1) as nat, id) {
            Some(v) => v,
            None => match payload_end(10, b, pos, d) {
                Some(e) => ench_level_in(b, e, n - 1, d, id),
                None => 0,
            },
        }
    }
}

/// For an enchantment compound whose entries start at `pos`: its level
/// (at least 0, 0 when absent) if its `id` is `id`.
pub open spec fn ench_hit(b: Seq<u8>, pos: int, d: nat, id: i16) -> Option<int> {
    if compound_short(b, pos, d, name_id()) == Some(id as int) {
        Some(
            match compound_short(b, pos, d, name_lvl()) {
                Some(v) => if v < 0 {
                    0
                } else {
                    v
                },
                None => 0,
            },
        )
    } else {
        None
    }
}

/// The level of enchantment `id` in item NBT `b` (`tag.ench`, a list of
/// `{id: short, lvl: short}` compounds); 0 when absent or malformed.
pub open spec fn spec_enchantment_level(b: Seq<u8>, id: i16) -> int {
    if !root_valid(b) {
        0
    } else {
        match root_list(b, name_ench()) {
            Some(l) => if l.0 == 10 {
                ench_level_in(b, l.2, l.1, (MAX_NBT_DEPTH - 2) as nat, id)
            } else {
                0
            },
            None => 0,
        }
    }
}

/// Whether the root list `name` exists and has elements.
pub open spec fn root_list_nonempty(b: Seq<u8>, name: Seq<u8>) -> bool {
    match root_list(b, name) {
        Some(l) => l.1 != 0,
        None => false,
    }
}

fn ench_hit_exec(b: &[u8], pos: usize, d: usize, id: i16) -> (r: Option<i16>)
    ensures
        r is None <==> ench_hit(b@, pos as int, d as nat, id) is None,
        r matches Some(v) ==> ench_hit(b@, pos as int, d as nat, id) == Some(v as int),
{
    let id_name: [u8; 2] = [105, 100];
    let lvl_name: [u8; 3] = [108, 118, 108];
    assert(id_name@ =~= name_id());
    assert(lvl_name@ =~= name_lvl());
    match compound_short_exec(b, pos, d, id_name.as_slice()) {
        Some(v) => {
            if v == id {
                Some(
                    match compound_short_exec(b, pos, d, lvl_name.as_slice()) {
                        Some(l) => if l < 0 {
                            0
                        } else {
                            l
                        },
                        None => 0,
                    },
                )
            } else {
                None
            }
        },
        None => None,
    }
}

/// Level of enchantment `id` in item NBT `b`.
pub fn enchantment_level(b: &[u8], id: i16) -> (r: i16)
    ensures
        r == spec_enchantment_level(b@, id),
{
    if !root_valid_exec(b) {
        return 0;
    }
    let ench: [u8; 4] = [101, 110, 99, 104];
    assert(ench@ =~= name_ench());
    let (et, n, start) = match root_list_exec(b, ench.as_slice()) {
        Some(l) => l,
        None => {
            return 0;
        },
    };
    if et != 10 {
        return 0;
    }
    let d: usize = MAX_NBT_DEPTH - 2;
    assert(spec_enchantment_level(b@, id) == ench_level_in(b@, start as int, n as int, d as nat, id));
    let mut k: i64 = n;
    let mut p: usize = start;
    while k > 0
        invariant
            d == MAX_NBT_DEPTH - 2,
            spec_enchantment_level(b@, id) == ench_level_in(b@, start as int, n as int, d as nat, id),
            ench_level_in(b@, p as int, k as int, d as nat, id) == ench_level_in(
                b@,
                start as int,
                n as int,
                d as nat,
                id,
            ),
        decreases k,
    {
        if let Some(level) = ench_hit_exec(b, p, d - 1, id) {
            return level;
        }
        match payload_end_exec(10, b, p, d) {
            Some(e) => {
                p = e;
                k = k - 1;
            },
            None => {
                return 0;
            },
        }
    }
    0
}

/// Whether item NBT `b` is a well-formed compound with a non-empty `ench`
/// or `StoredEnchantments` list.
pub fn has_enchantments(b: &[u8]) -> (r: bool)
    ensures
        r == (root_valid(b@) && (root_list_nonempty(b@, name_ench()) || root_list_nonempty(
            b@,
            name_stored_enchantments(),
        ))),
{
    if !root_valid_exec(b) {
        return false;
    }
    let ench: [u8; 4] = [101, 110, 99, 104];
    let stored: [u8; 18] = [83, 116, 111, 114, 101, 100, 69, 110, 99, 104, 97, 110, 116, 109, 101, 110, 116, 115];
    assert(ench@ =~= name_ench());
    assert(stored@ =~= name_stored_enchantments());
    if let Some((_, n, _)) = root_list_exec(b, ench.as_slice()) {
        if n != 0 {
            return true;
        }
    }
    if let Some((_, n, _)) = root_list_exec(b, stored.as_slice()) {
        if n != 0 {
            return true;
        }
    }
    false
}


} // verus!
