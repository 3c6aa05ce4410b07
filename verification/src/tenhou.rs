//! Tenhou encodings: the meld bitfield of `<N m=".."/>` tags and the
//! per-flow seat/hand mirror.
//!
//! Meld bit layout (tenhou.net/img/mentsu136.txt): bits 0..1 give the
//! relative seat that supplied the called tile (0 for an ankan); bit 2 set
//! → chi; else bit 3 → pon; else bit 4 → kakan; otherwise a kan that is a
//! daiminkan when the seat is non-zero and an ankan when it is zero.
use vstd::prelude::*;
use vstd::slice::slice_subrange;
use crate::tile::{spec_tenhou_tile, tenhou_to_mjai_one, views, unknown_tile};

verus! {

#[derive(Debug, Clone, Copy, PartialEq, Eq)]
pub enum MeldKind {
    Chi,
    Pon,
    Kakan,
    Daiminkan,
    Ankan,
}

/// A decoded Tenhou call.
#[derive(Debug, Clone)]
pub struct Meld {
    pub kind: MeldKind,
    /// Relative seat (0..=3) that provided the called tile; 0 for ankan.
    pub target_rel: u8,
    /// Tenhou tile indices of the meld. `tiles[0]` is the called / added
    /// tile (for an ankan, by convention, the first of the four).
    pub tiles: Vec<u32>,
    /// Pon only: the fourth copy that is not part of the meld.
    pub unused: Option<u32>,
    /// Chi / pon / kakan: slot of the called tile in the sorted triplet.
    pub r: Option<u8>,
}

// ---------------------------------------------------------------------------
// Spec
// ---------------------------------------------------------------------------

/// The bit field of `m` selected by `(m / div) % modulus`.
pub open spec fn field(m: u32, div: int, modulus: int) -> int {
    (m as int / div) % modulus
}

/// `s` with positions 0 and `r` exchanged.
pub open spec fn swap0(s: Seq<u32>, r: int) -> Seq<u32> {
    s.update(0, s[r]).update(r, s[0])
}

/// The four copies of the tile type starting at index `t` (a multiple of 4).
pub open spec fn quad(t: int) -> Seq<u32> {
    seq![t as u32, (t + 1) as u32, (t + 2) as u32, (t + 3) as u32]
}

/// Decoded form of `m`, as (kind, target, tiles, unused, r).
pub open spec fn spec_meld(m: u32) -> (MeldKind, u8, Seq<u32>, Option<u32>, Option<u8>) {
    let target = field(m, 1, 4) as u8;
    if field(m, 4, 2) == 1 {
        // chi: start type packed in 7-wide blocks of each suit
        let t0 = m as int / 1024;
        let r = t0 % 3;
        let t1 = t0 / 3;
        let t = ((t1 / 7) * 9 + t1 % 7) * 4;
        let h = seq![
            (t + field(m, 8, 4)) as u32,
            (t + 4 + field(m, 32, 4)) as u32,
            (t + 8 + field(m, 128, 4)) as u32
        ];
        (MeldKind::Chi, target, swap0(h, r), None, Some(r as u8))
    } else if field(m, 8, 2) == 1 || field(m, 16, 2) == 1 {
        let idx = field(m, 32, 4);
        let t0 = m as int / 512;
        let r = t0 % 3;
        let t = (t0 / 3) * 4;
        let h = quad(t).remove(idx);
        if field(m, 8, 2) == 1 {
            (MeldKind::Pon, target, swap0(h, r), Some(quad(t)[idx]), Some(r as u8))
        } else {
            (MeldKind::Kakan, target, seq![quad(t)[idx]] + swap0(h, r), None, Some(r as u8))
        }
    } else {
        let hai0 = m as int / 256;
        let t = (hai0 / 4) * 4;
        let kind = if target == 0 {
            MeldKind::Ankan
        } else {
            MeldKind::Daiminkan
        };
        (kind, target, swap0(quad(t), hai0 % 4), None, None)
    }
}

impl Meld {
    pub open spec fn spec_tuple(&self) -> (MeldKind, u8, Seq<u32>, Option<u32>, Option<u8>) {
        (self.kind, self.target_rel, self.tiles@, self.unused, self.r)
    }
}

// ---------------------------------------------------------------------------
// Executable
// ---------------------------------------------------------------------------

proof fn lemma_fields(m: u32)
    by (bit_vector)
    ensures
        m & 3 == m % 4,
        (m >> 2) & 1 == (m / 4) % 2,
        (m & (1u32 << 2u32) != 0) == ((m / 4) % 2 == 1),
        (m & (1u32 << 3u32) != 0) == ((m / 8) % 2 == 1),
        (m & (1u32 << 4u32) != 0) == ((m / 16) % 2 == 1),
        m >> 10 == m / 1024,
        m >> 9 == m / 512,
        m >> 8 == m / 256,
        (m >> 3) & 3 == (m / 8) % 4,
        (m >> 5) & 3 == (m / 32) % 4,
        (m >> 7) & 3 == (m / 128) % 4,
{
}

fn swap_first(v: &mut Vec<u32>, r: usize)
    requires
        r < old(v)@.len(),
    ensures
        final(v)@ == swap0(old(v)@, r as int),
{
    let a = v[0];
    let b = v[r];
    v.set(0, b);
    v.set(r, a);
}

impl Meld {
    /// Decode the `m` integer attached to a `<N/>` tag. Every `m` decodes.
    pub fn parse(m: u32) -> (r: Meld)
        ensures
            r.spec_tuple() == spec_meld(m),
    {
        proof {
            lemma_fields(m);
        }
        if m & (1u32 << 2u32) != 0 {
            Self::parse_chi(m)
        } else if m & (1u32 << 3u32) != 0 {
            Self::parse_pon(m, false)
        } else if m & (1u32 << 4u32) != 0 {
            Self::parse_pon(m, true)
        } else {
            Self::parse_daiminkan_ankan(m)
        }
    }

    fn parse_chi(m: u32) -> (r: Meld)
        requires
            field(m, 4, 2) == 1,
        ensures
            r.spec_tuple() == spec_meld(m),
    {
        proof {
            lemma_fields(m);
        }
        let mut t = m >> 10;
        let r = t % 3;
        t = t / 3;
        t = (t / 7) * 9 + (t % 7);
        let t = t * 4;
        let mut h: Vec<u32> = vec![
            t + ((m >> 3) & 0x3),
            t + 4 + ((m >> 5) & 0x3),
            t + 8 + ((m >> 7) & 0x3),
        ];
        swap_first(&mut h, r as usize);
        Meld { kind: MeldKind::Chi, target_rel: (m & 3) as u8, tiles: h, unused: None, r: Some(r as u8) }
    }

    /// Pon (`added == false`) or kakan (`added == true`).
    fn parse_pon(m: u32, added: bool) -> (r: Meld)
        requires
            field(m, 4, 2) != 1,
            added ==> field(m, 8, 2) != 1 && field(m, 16, 2) == 1,
            !added ==> field(m, 8, 2) == 1,
        ensures
            r.spec_tuple() == spec_meld(m),
    {
        proof {
            lemma_fields(m);
        }
        let idx = ((m >> 5) & 0x3) as usize;
        let t = m >> 9;
        let r = t % 3;
        let t = (t / 3) * 4;
        let mut h: Vec<u32> = vec![t, t + 1, t + 2, t + 3];
        assert(h@ =~= quad(t as int));
        let other = h.remove(idx);
        swap_first(&mut h, r as usize);
        if added {
            let mut tiles: Vec<u32> = vec![other];
            let ghost rest = h@;
            tiles.append(&mut h);
            assert(tiles@ =~= seq![other] + rest);
            Meld { kind: MeldKind::Kakan, target_rel: (m & 3) as u8, tiles, unused: None, r: Some(r as u8) }
        } else {
            Meld { kind: MeldKind::Pon, target_rel: (m & 3) as u8, tiles: h, unused: Some(other), r: Some(r as u8) }
        }
    }

    fn parse_daiminkan_ankan(m: u32) -> (r: Meld)
        requires
            field(m, 4, 2) != 1,
            field(m, 8, 2) != 1,
            field(m, 16, 2) != 1,
        ensures
            r.spec_tuple() == spec_meld(m),
    {
        proof {
            lemma_fields(m);
        }
        let target = (m & 3) as u8;
        let hai0 = m >> 8;
        let t = (hai0 / 4) * 4;
        let r = (hai0 % 4) as usize;
        let mut h: Vec<u32> = vec![t, t + 1, t + 2, t + 3];
        assert(h@ =~= quad(t as int));
        swap_first(&mut h, r);
        let kind = if target == 0 {
            MeldKind::Ankan
        } else {
            MeldKind::Daiminkan
        };
        Meld { kind, target_rel: target, tiles: h, unused: None, r: None }
    }

    /// First (called / added) tile as an mjai string.
    pub fn pai(&self) -> (r: String)
        requires
            self.tiles@.len() > 0,
        ensures
            r@ == spec_tenhou_tile(self.tiles@[0] as int),
    {
        tenhou_to_mjai_one(self.tiles[0])
    }

    /// Tiles taken from the caller's hand, as mjai strings: all four for an
    /// ankan, otherwise every tile but the called one.
    pub fn consumed(&self) -> (r: Vec<String>)
        requires
            self.tiles@.len() > 0,
        ensures
            ({
                let from = if self.kind == MeldKind::Ankan { 0int } else { 1int };
                &&& r@.len() == self.tiles@.len() - from
                &&& forall|i: int| 0 <= i < r@.len() ==> #[trigger] r@[i]@ == spec_tenhou_tile(self.tiles@[i + from] as int)
            }),
    {
        let from: usize = match self.kind {
            MeldKind::Ankan => 0,
            _ => 1,
        };
        let n = self.tiles.len();
        let mut out: Vec<String> = Vec::new();
        let mut i = from;
        while i < n
            invariant
                n == self.tiles@.len(),
                from <= i <= n,
                from <= 1,
                out@.len() == i - from,
                forall|k: int| 0 <= k < out@.len() ==> #[trigger] out@[k]@ == spec_tenhou_tile(self.tiles@[k + from] as int),
            decreases n - i,
        {
            out.push(tenhou_to_mjai_one(self.tiles[i]));
            i += 1;
        }
        out
    }

    /// Tiles physically removed from the caller's hand (raw indices): all
    /// four for an ankan, the added tile for a kakan, else all but the
    /// called tile.
    pub fn exposed(&self) -> (r: &[u32])
        requires
            self.tiles@.len() > 0,
        ensures
            r@ == match self.kind {
                MeldKind::Ankan => self.tiles@,
                MeldKind::Kakan => self.tiles@.subrange(0, 1),
                _ => self.tiles@.subrange(1, self.tiles@.len() as int),
            },
    {
        let s = self.tiles.as_slice();
        match self.kind {
            MeldKind::Ankan => s,
            MeldKind::Kakan => slice_subrange(s, 0, 1),
            _ => slice_subrange(s, 1, s.len()),
        }
    }
}


/// Tile type (`0..34`) of a Tenhou index.
pub open spec fn kind_of(i: u32) -> int {
    i as int / 4
}

/// Three different Tenhou indices of three consecutive tile types inside
/// one suit block of nine, in some order.
pub open spec fn is_run(s: Seq<u32>) -> bool {
    &&& s.len() == 3
    &&& exists|b: int| #![trigger b % 9]
        b % 9 <= 6 && (forall|i: int| 0 <= i < 3 ==> b <= #[trigger] kind_of(s[i]) <= b + 2)
    &&& kind_of(s[0]) != kind_of(s[1]) && kind_of(s[0]) != kind_of(s[2]) && kind_of(s[1]) != kind_of(s[2])
}

/// Distinct copies of one tile type.
pub open spec fn same_kind_distinct(s: Seq<u32>) -> bool {
    &&& forall|i: int| 0 <= i < s.len() ==> #[trigger] kind_of(s[i]) == kind_of(s[0])
    &&& forall|i: int, j: int| 0 <= i < j < s.len() ==> s[i] != s[j]
}

/// Shape of every decoded meld: a chi is a run of three; a pon is three
/// copies of a type with the fourth copy set aside; a kakan, daiminkan or
/// ankan holds all four copies; an ankan is exactly the kan whose supplier
/// seat is 0.
pub proof fn lemma_meld_shape(m: u32)
    ensures
        ({
            let (kind, target, tiles, unused, r) = spec_meld(m);
            &&& target < 4
            &&& kind == MeldKind::Chi ==> is_run(tiles) && unused is None
            &&& kind == MeldKind::Pon ==> tiles.len() == 3 && unused is Some
                && same_kind_distinct(tiles.push(unused.unwrap()))
            &&& (kind == MeldKind::Kakan || kind == MeldKind::Daiminkan || kind == MeldKind::Ankan)
                ==> tiles.len() == 4 && same_kind_distinct(tiles) && unused is None
            &&& kind == MeldKind::Ankan ==> target == 0
            &&& kind == MeldKind::Daiminkan ==> target != 0
        }),
{
    if field(m, 4, 2) == 1 {
        lemma_chi_shape(m);
    } else if field(m, 8, 2) == 1 || field(m, 16, 2) == 1 {
        lemma_pon_shape(m);
    } else {
        lemma_kan_shape(m);
    }
}

/// A chi puts the called tile first. Tenhou packs a chi as the run's
/// base type (`(m >> 10) / 3`, seven runs per suit) and the slot of the
/// called tile in the run (`(m >> 10) % 3`): the decoded meld records
/// that slot, its first tile is the run tile of that slot, and the other
/// two tiles are the other two types of the run.
pub proof fn lemma_chi_called_tile_first(m: u32)
    requires
        (m as int / 4) % 2 == 1,
    ensures
        ({
            let (kind, target, tiles, unused, r) = spec_meld(m);
            let slot = (m as int / 1024) % 3;
            let run = (m as int / 1024) / 3;
            let base = (run / 7) * 9 + run % 7;
            &&& kind == MeldKind::Chi
            &&& r == Some(slot as u8)
            &&& tiles.len() == 3
            &&& kind_of(tiles[0]) == base + slot
            &&& kind_of(tiles[1]) != kind_of(tiles[0]) && kind_of(tiles[2]) != kind_of(tiles[0])
            &&& kind_of(tiles[1]) != kind_of(tiles[2])
            &&& base <= kind_of(tiles[1]) <= base + 2 && base <= kind_of(tiles[2]) <= base + 2
        }),
{
    let t0 = m as int / 1024;
    let rr = t0 % 3;
    let t1 = t0 / 3;
    let b = (t1 / 7) * 9 + t1 % 7;
    let t = b * 4;
    let h = seq![
        (t + field(m, 8, 4)) as u32,
        (t + 4 + field(m, 32, 4)) as u32,
        (t + 8 + field(m, 128, 4)) as u32
    ];
    assert(kind_of(h[0]) == b);
    assert(kind_of(h[1]) == b + 1);
    assert(kind_of(h[2]) == b + 2);
    assert(spec_meld(m).2 == swap0(h, rr));
}

/// A pon or added kan, like a chi, puts the called tile first: of the
/// three copies in the pon (the four copies of the type `(m >> 9) / 3`
/// without copy `(m >> 5) & 3`, in increasing order), the one in slot
/// `(m >> 9) % 3`. A pon sets copy `(m >> 5) & 3` aside; an added kan puts
/// that copy, the added one, before the pon's tiles.
pub proof fn lemma_pon_called_tile_first(m: u32)
    requires
        (m as int / 4) % 2 != 1,
        (m as int / 8) % 2 == 1 || (m as int / 16) % 2 == 1,
    ensures
        ({
            let (kind, target, tiles, unused, r) = spec_meld(m);
            let idx = (m as int / 32) % 4;
            let slot = (m as int / 512) % 3;
            let first = (m as int / 512) / 3 * 4;
            let called = first + if slot < idx { slot } else { slot + 1 };
            &&& r == Some(slot as u8)
            &&& (m as int / 8) % 2 == 1 ==> kind == MeldKind::Pon && tiles.len() == 3 && tiles[0] == called
                && unused == Some((first + idx) as u32)
            &&& (m as int / 8) % 2 != 1 ==> kind == MeldKind::Kakan && tiles.len() == 4 && tiles[0] == first + idx
                && tiles[1] == called
        }),
{
    let idx = field(m, 32, 4);
    let t0 = m as int / 512;
    let rr = t0 % 3;
    let t = (t0 / 3) * 4;
    let q = quad(t);
    let h = q.remove(idx);
    assert(h[rr] == q[if rr < idx { rr } else { rr + 1 }]);
}

/// A daiminkan or closed kan holds the four copies of the type of tile
/// `m >> 8`, that tile first.
pub proof fn lemma_kan_tile_first(m: u32)
    requires
        (m as int / 4) % 2 != 1,
        (m as int / 8) % 2 != 1,
        (m as int / 16) % 2 != 1,
    ensures
        spec_meld(m).2.len() == 4,
        spec_meld(m).2[0] == m as int / 256,
        spec_meld(m).4 is None,
{
}

proof fn lemma_quad_kinds(t: int)
    requires
        t % 4 == 0,
        0 <= t,
        t + 3 <= u32::MAX,
    ensures
        forall|i: int| 0 <= i < 4 ==> #[trigger] kind_of(quad(t)[i]) == t / 4,
        forall|i: int, j: int| 0 <= i < j < 4 ==> quad(t)[i] != quad(t)[j],
{
}

proof fn lemma_swap_same_kind(s: Seq<u32>, r: int)
    requires
        0 <= r < s.len(),
        same_kind_distinct(s),
    ensures
        same_kind_distinct(swap0(s, r)),
        swap0(s, r).len() == s.len(),
{
    let w = swap0(s, r);
    assert forall|i: int| 0 <= i < w.len() implies #[trigger] kind_of(w[i]) == kind_of(w[0]) by {
        assert(kind_of(s[r]) == kind_of(s[0]));
    }
    assert forall|i: int, j: int| 0 <= i < j < w.len() implies w[i] != w[j] by {
        if i == 0 {
            if j == r {
            } else {
                assert(s[r] != s[j]);
            }
        } else if i == r {
            assert(s[0] != s[j]);
        } else if j == r {
            assert(s[i] != s[0]);
        } else {
            assert(s[i] != s[j]);
        }
    }
}

proof fn lemma_chi_shape(m: u32)
    requires
        field(m, 4, 2) == 1,
    ensures
        spec_meld(m).0 == MeldKind::Chi,
        is_run(spec_meld(m).2),
        spec_meld(m).3 is None,
        spec_meld(m).1 < 4,
{
    let t0 = m as int / 1024;
    let rr = t0 % 3;
    let t1 = t0 / 3;
    let b = (t1 / 7) * 9 + t1 % 7;
    let t = b * 4;
    assert(b % 9 == t1 % 7);
    let h = seq![
        (t + field(m, 8, 4)) as u32,
        (t + 4 + field(m, 32, 4)) as u32,
        (t + 8 + field(m, 128, 4)) as u32
    ];
    assert(kind_of(h[0]) == b);
    assert(kind_of(h[1]) == b + 1);
    assert(kind_of(h[2]) == b + 2);
    let tiles = spec_meld(m).2;
    assert(tiles == swap0(h, rr));
    assert(b <= kind_of(tiles[0]) <= b + 2);
    assert(b <= kind_of(tiles[1]) <= b + 2);
    assert(b <= kind_of(tiles[2]) <= b + 2);
}

proof fn lemma_pon_shape(m: u32)
    requires
        field(m, 4, 2) != 1,
        field(m, 8, 2) == 1 || field(m, 16, 2) == 1,
    ensures
        ({
            let (kind, target, tiles, unused, r) = spec_meld(m);
            &&& target < 4
            &&& kind == MeldKind::Pon ==> tiles.len() == 3 && unused is Some
                && same_kind_distinct(tiles.push(unused.unwrap()))
            &&& kind == MeldKind::Kakan ==> tiles.len() == 4 && same_kind_distinct(tiles) && unused is None
            &&& kind == MeldKind::Pon || kind == MeldKind::Kakan
        }),
{
    let idx = field(m, 32, 4);
    let t0 = m as int / 512;
    let rr = t0 % 3;
    let t = (t0 / 3) * 4;
    let q = quad(t);
    lemma_quad_kinds(t);
    let h = q.remove(idx);
    assert(same_kind_distinct(h)) by {
        assert forall|i: int, j: int| 0 <= i < j < h.len() implies h[i] != h[j] by {
            let qi = if i < idx { i } else { i + 1 };
            let qj = if j < idx { j } else { j + 1 };
            assert(h[i] == q[qi] && h[j] == q[qj]);
        }
        assert forall|i: int| 0 <= i < h.len() implies #[trigger] kind_of(h[i]) == kind_of(h[0]) by {
            let qi = if i < idx { i } else { i + 1 };
            assert(h[i] == q[qi]);
            assert(h[0] == q[if 0 < idx { 0int } else { 1int }]);
        }
    }
    lemma_swap_same_kind(h, rr);
    let sw = swap0(h, rr);
    if field(m, 8, 2) == 1 {
        let all = sw.push(q[idx]);
        assert(same_kind_distinct(all)) by {
            assert forall|i: int| 0 <= i < all.len() implies #[trigger] kind_of(all[i]) == kind_of(all[0]) by {
                if i < 3 {
                    assert(kind_of(sw[i]) == kind_of(sw[0]));
                }
            }
            assert forall|i: int, j: int| 0 <= i < j < all.len() implies all[i] != all[j] by {
                if j == 3 {
                    // sw is a permutation of q without q[idx]
                    assert(sw[i] == h[i] || sw[i] == h[0] || sw[i] == h[rr]);
                    let k = if i == 0 { rr } else if i == rr { 0 } else { i };
                    assert(sw[i] == h[k]);
                    let qk = if k < idx { k } else { k + 1 };
                    assert(h[k] == q[qk]);
                } else {
                    assert(sw[i] != sw[j]);
                }
            }
        }
    } else {
        let tiles = seq![q[idx]] + sw;
        assert(spec_meld(m).2 == tiles);
        assert(same_kind_distinct(tiles)) by {
            assert forall|i: int| 0 <= i < tiles.len() implies #[trigger] kind_of(tiles[i]) == kind_of(tiles[0]) by {
                if i > 0 {
                    assert(tiles[i] == sw[i - 1]);
                    assert(kind_of(sw[i - 1]) == kind_of(sw[0]));
                    assert(kind_of(sw[0]) == kind_of(h[rr]));
                }
            }
            assert forall|i: int, j: int| 0 <= i < j < tiles.len() implies tiles[i] != tiles[j] by {
                if i == 0 {
                    let k = if j - 1 == 0 { rr } else if j - 1 == rr { 0 } else { j - 1 };
                    assert(sw[j - 1] == h[k]);
                    let qk = if k < idx { k } else { k + 1 };
                    assert(h[k] == q[qk]);
                } else {
                    assert(sw[i - 1] != sw[j - 1]);
                }
            }
        }
    }
}

proof fn lemma_kan_shape(m: u32)
    requires
        field(m, 4, 2) != 1,
        field(m, 8, 2) != 1,
        field(m, 16, 2) != 1,
    ensures
        ({
            let (kind, target, tiles, unused, r) = spec_meld(m);
            &&& target < 4
            &&& kind == MeldKind::Ankan || kind == MeldKind::Daiminkan
            &&& tiles.len() == 4 && same_kind_distinct(tiles) && unused is None
            &&& kind == MeldKind::Ankan <==> target == 0
        }),
{
    let hai0 = m as int / 256;
    let t = (hai0 / 4) * 4;
    lemma_quad_kinds(t);
    assert(same_kind_distinct(quad(t)));
    lemma_swap_same_kind(quad(t), hai0 % 4);
}

// ---------------------------------------------------------------------------
// Per-flow state
// ---------------------------------------------------------------------------

/// Per-flow Tenhou game state. Tenhou messages use seats relative to the
/// observing player (rel 0); mjai uses absolute seats.
#[derive(Debug, Clone)]
pub struct State {
    /// Our absolute seat (0..=3 for yonma, 0..=2 for sanma).
    pub seat: u8,
    /// Tenhou tile indices in our hand.
    pub hand: Vec<u32>,
    /// Open melds we have called this kyoku.
    pub melds: Vec<Meld>,
    pub in_riichi: bool,
    /// Tiles remaining in the wall (counts down from 70 each kyoku).
    pub live_wall: u32,
    /// Last discard, as an mjai string.
    pub last_kawa_tile: String,
    /// True between our tsumo and our dahai.
    pub is_tsumo: bool,
    /// True iff this is a three-player game.
    pub is_3p: bool,
    /// 3 (sanma) or 4 (yonma).
    pub num_players: u8,
    /// Absolute seat of the most recent tile-revealing action.
    pub last_revealed_tile_actor: Option<u8>,
}

/// Absolute seat of relative seat `rel`.
pub open spec fn spec_rel_to_abs(seat: int, n: int, rel: int) -> int {
    (rel + seat) % n
}

/// Relative seat of absolute seat `abs`.
pub open spec fn spec_abs_to_rel(seat: int, n: int, abs: int) -> int {
    (abs + n - seat) % n
}

impl Default for State {
    /// Fresh state: seat 0 of a four-player game, full wall, empty hand.
    fn default() -> (r: State)
        ensures
            r.seat == 0,
            r.hand@.len() == 0,
            r.melds@.len() == 0,
            !r.in_riichi,
            r.live_wall == 70,
            r.last_kawa_tile@ == seq!['?'],
            !r.is_tsumo,
            !r.is_3p,
            r.num_players == 4,
            r.last_revealed_tile_actor is None,
    {
        State {
            seat: 0,
            hand: Vec::new(),
            melds: Vec::new(),
            in_riichi: false,
            live_wall: 70,
            last_kawa_tile: unknown_tile(),
            is_tsumo: false,
            is_3p: false,
            num_players: 4,
            last_revealed_tile_actor: None,
        }
    }

}

impl State {
    /// Relative seat (Tenhou's frame) → absolute seat (mjai's frame).
    pub fn rel_to_abs(&self, rel: u8) -> (r: u8)
        requires
            self.num_players > 0,
            rel + self.seat <= u8::MAX,
        ensures
            r as int == spec_rel_to_abs(self.seat as int, self.num_players as int, rel as int),
    {
        (rel + self.seat) % self.num_players
    }

    /// Inverse of [`State::rel_to_abs`].
    pub fn abs_to_rel(&self, abs: u8) -> (r: u8)
        requires
            self.num_players > 0,
            self.seat <= abs + self.num_players <= u8::MAX,
        ensures
            r as int == spec_abs_to_rel(self.seat as int, self.num_players as int, abs as int),
    {
        (abs + self.num_players - self.seat) % self.num_players
    }

    /// Reset the per-kyoku fields (called on `INIT`).
    pub fn reset_for_kyoku(&mut self)
        ensures
            final(self).hand@.len() == 0,
            final(self).melds@.len() == 0,
            !final(self).in_riichi,
            final(self).live_wall == 70,
            final(self).last_kawa_tile@ == seq!['?'],
            !final(self).is_tsumo,
            final(self).last_revealed_tile_actor is None,
            final(self).seat == old(self).seat,
            final(self).is_3p == old(self).is_3p,
            final(self).num_players == old(self).num_players,
    {
        self.hand.clear();
        self.melds.clear();
        self.in_riichi = false;
        self.live_wall = 70;
        self.last_kawa_tile = unknown_tile();
        self.is_tsumo = false;
        self.last_revealed_tile_actor = None;
    }
}

proof fn lemma_mod_small(x: int, n: int)
    by (nonlinear_arith)
    requires
        0 <= x < n,
    ensures
        x % n == x,
{
}

proof fn lemma_mod_wrap(x: int, n: int)
    by (nonlinear_arith)
    requires
        0 < n <= x < 2 * n,
    ensures
        x % n == x - n,
{
}

/// Seat conversion round-trips: for a seat and an absolute seat inside the
/// table, converting to the relative frame and back gives the same seat.
pub proof fn lemma_abs_rel_round_trip(seat: int, n: int, abs: int)
    requires
        0 <= seat < n,
        0 <= abs < n,
    ensures
        spec_rel_to_abs(seat, n, spec_abs_to_rel(seat, n, abs)) == abs,
        0 <= spec_abs_to_rel(seat, n, abs) < n,
{
    let rel = if abs >= seat {
        lemma_mod_wrap(abs + n - seat, n);
        abs - seat
    } else {
        lemma_mod_small(abs + n - seat, n);
        abs + n - seat
    };
    assert(spec_abs_to_rel(seat, n, abs) == rel);
    if rel + seat < n {
        lemma_mod_small(rel + seat, n);
    } else {
        lemma_mod_wrap(rel + seat, n);
    }
}

/// And from the relative frame: relative → absolute → relative is the
/// identity on `0..n`.
pub proof fn lemma_rel_abs_round_trip(seat: int, n: int, rel: int)
    requires
        0 <= seat < n,
        0 <= rel < n,
    ensures
        spec_abs_to_rel(seat, n, spec_rel_to_abs(seat, n, rel)) == rel,
        0 <= spec_rel_to_abs(seat, n, rel) < n,
{
    let abs = if rel + seat < n {
        lemma_mod_small(rel + seat, n);
        rel + seat
    } else {
        lemma_mod_wrap(rel + seat, n);
        rel + seat - n
    };
    assert(spec_rel_to_abs(seat, n, rel) == abs);
    if abs >= seat {
        lemma_mod_wrap(abs + n - seat, n);
    } else {
        lemma_mod_small(abs + n - seat, n);
    }
}

} // verus!
