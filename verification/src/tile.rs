//! Tile strings in mjai notation (`"1m"`, `"5pr"`, `"E"`), their canonical
//! order, and the conversions from the Tenhou and Majsoul encodings.
use vstd::prelude::*;
use vstd::string::StrSliceExecFns;

verus! {

// ---------------------------------------------------------------------------
// Spec model
// ---------------------------------------------------------------------------

/// Suit letter of suit index `k` (0 = man, 1 = pin, 2 = sou).
pub open spec fn suit_char(k: int) -> char {
    if k == 0 {
        'm'
    } else if k == 1 {
        'p'
    } else {
        's'
    }
}

/// Suit index of a suit letter, or -1.
pub open spec fn suit_index(c: char) -> int {
    if c == 'm' {
        0
    } else if c == 'p' {
        1
    } else if c == 's' {
        2
    } else {
        -1
    }
}

/// Digit character for `1..=9` (and `0`).
pub open spec fn digit_char(n: int) -> char {
    if n == 0 {
        '0'
    } else if n == 1 {
        '1'
    } else if n == 2 {
        '2'
    } else if n == 3 {
        '3'
    } else if n == 4 {
        '4'
    } else if n == 5 {
        '5'
    } else if n == 6 {
        '6'
    } else if n == 7 {
        '7'
    } else if n == 8 {
        '8'
    } else {
        '9'
    }
}

/// Value of a decimal digit character, or -1.
pub open spec fn digit_value(c: char) -> int {
    if c == '0' {
        0
    } else if c == '1' {
        1
    } else if c == '2' {
        2
    } else if c == '3' {
        3
    } else if c == '4' {
        4
    } else if c == '5' {
        5
    } else if c == '6' {
        6
    } else if c == '7' {
        7
    } else if c == '8' {
        8
    } else if c == '9' {
        9
    } else {
        -1
    }
}

/// Honor letter for honor index `h` (E S W N P F C).
pub open spec fn honor_char(h: int) -> char {
    if h == 0 {
        'E'
    } else if h == 1 {
        'S'
    } else if h == 2 {
        'W'
    } else if h == 3 {
        'N'
    } else if h == 4 {
        'P'
    } else if h == 5 {
        'F'
    } else {
        'C'
    }
}

/// Honor index of an honor letter, or -1.
pub open spec fn honor_index(c: char) -> int {
    if c == 'E' {
        0
    } else if c == 'S' {
        1
    } else if c == 'W' {
        2
    } else if c == 'N' {
        3
    } else if c == 'P' {
        4
    } else if c == 'F' {
        5
    } else if c == 'C' {
        6
    } else {
        -1
    }
}

/// mjai name of tile type `t` in `0..34` (1m..9m, 1p..9p, 1s..9s, E S W N P F C).
pub open spec fn kind_name(t: int) -> Seq<char> {
    if t < 27 {
        seq![digit_char(t % 9 + 1), suit_char(t / 9)]
    } else {
        seq![honor_char(t - 27)]
    }
}

/// mjai name of the red five of suit `k`.
pub open spec fn red_five_name(k: int) -> Seq<char> {
    seq!['5', suit_char(k), 'r']
}

/// Position of a tile in the canonical mjai order: man, pin, sou (each
/// `1..=9` with the red five directly after the normal five), then the
/// honors E S W N P F C. Anything else sorts last.
pub open spec fn tile_rank(s: Seq<char>) -> int {
    if s.len() == 2 && 1 <= digit_value(s[0]) && suit_index(s[1]) >= 0 {
        let n = digit_value(s[0]);
        suit_index(s[1]) * 10 + if n <= 5 {
            n - 1
        } else {
            n
        }
    } else if s.len() == 3 && s[0] == '5' && suit_index(s[1]) >= 0 && s[2] == 'r' {
        suit_index(s[1]) * 10 + 5
    } else if s.len() == 1 && honor_index(s[0]) >= 0 {
        30 + honor_index(s[0])
    } else {
        37
    }
}

/// Number of distinct ranks.
pub open spec fn rank_count() -> int {
    38
}

/// `Some((suit, is_red))` when `s` is a five of a numbered suit
/// (`"5m"`, `"5mr"`, ...), else `None`.
pub open spec fn five_parts(s: Seq<char>) -> Option<(int, bool)> {
    if s.len() == 2 && s[0] == '5' && suit_index(s[1]) >= 0 {
        Some((suit_index(s[1]), false))
    } else if s.len() == 3 && s[0] == '5' && suit_index(s[1]) >= 0 && s[2] == 'r' {
        Some((suit_index(s[1]), true))
    } else {
        None
    }
}

/// True when `a` and `b` name the same five, once red and once not.
pub open spec fn spec_red_five_only_mismatch(a: Seq<char>, b: Seq<char>) -> bool {
    match (five_parts(a), five_parts(b)) {
        (Some((ka, ra)), Some((kb, rb))) => ka == kb && ra != rb,
        _ => false,
    }
}

/// Tiles equal up to the red-five marker.
pub open spec fn spec_same_tile_relaxed(a: Seq<char>, b: Seq<char>) -> bool {
    a == b || spec_red_five_only_mismatch(a, b)
}

/// True for the three numbered fives that have a red counterpart.
pub open spec fn spec_has_red_form(s: Seq<char>) -> bool {
    five_parts(s) matches Some((_, false))
}

/// `s` with every trailing `'r'` removed.
pub open spec fn trim_trailing_r(s: Seq<char>) -> Seq<char>
    decreases s.len(),
{
    if s.len() > 0 && s.last() == 'r' {
        trim_trailing_r(s.drop_last())
    } else {
        s
    }
}

/// `s` without one trailing `'r'`, if present.
pub open spec fn strip_one_r(s: Seq<char>) -> Seq<char> {
    if s.len() > 0 && s.last() == 'r' {
        s.drop_last()
    } else {
        s
    }
}

/// Tenhou index (`0..=135`, four copies per type) → mjai name. Indices 16, 52
/// and 88 are the red fives; indices past 135 become `"?"`.
pub open spec fn spec_tenhou_tile(index: int) -> Seq<char> {
    if index / 4 >= 34 {
        seq!['?']
    } else if index == 16 || index == 52 || index == 88 {
        kind_name(index / 4).push('r')
    } else {
        kind_name(index / 4)
    }
}

/// Majsoul tile (`"7p"`, `"0s"` for the red five, `"1z"`..`"7z"` for honors)
/// → mjai name, or `None` when `s` is not a Majsoul tile.
pub open spec fn spec_ms_tile(s: Seq<char>) -> Option<Seq<char>> {
    if s.len() != 2 {
        None
    } else if suit_index(s[1]) >= 0 && s[0] == '0' {
        Some(red_five_name(suit_index(s[1])))
    } else if suit_index(s[1]) >= 0 && 1 <= digit_value(s[0]) {
        Some(s)
    } else if s[1] == 'z' && 1 <= digit_value(s[0]) <= 7 {
        Some(seq![honor_char(digit_value(s[0]) - 1)])
    } else {
        None
    }
}

/// Majsoul writes the honors `1z`..`7z` for east, south, west, north,
/// white, green and red dragon, in that order: `dz` becomes the mjai
/// letter `E S W N P F C` at position `d`, which is also how the same
/// tile type (`27 + d - 1`) reads in Tenhou's numbering.
pub proof fn lemma_ms_honors_in_order(d: int)
    requires
        1 <= d <= 7,
    ensures
        spec_ms_tile(seq![digit_char(d), 'z']) == Some(seq![seq!['E', 'S', 'W', 'N', 'P', 'F', 'C'][d - 1]]),
        spec_ms_tile(seq![digit_char(d), 'z']) == Some(spec_tenhou_tile((26 + d) * 4)),
{
    let s = seq![digit_char(d), 'z'];
    assert(digit_value(digit_char(d)) == d);
    assert(suit_index('z') < 0);
}

/// Majsoul suited tiles keep their name (`1m`..`9s`), and the zero of a
/// suit is that suit's red five (`0p` is `5pr`).
pub proof fn lemma_ms_suited_tiles(d: int, c: char)
    requires
        0 <= d <= 9,
        c == 'm' || c == 'p' || c == 's',
    ensures
        d >= 1 ==> spec_ms_tile(seq![digit_char(d), c]) == Some(seq![digit_char(d), c]),
        d == 0 ==> spec_ms_tile(seq![digit_char(d), c]) == Some(seq!['5', c, 'r']),
{
    assert(digit_value(digit_char(d)) == d);
}

/// Stable sort by `tile_rank`: the tiles of rank 0 in input order, then rank
/// 1, and so on, for the ranks below `k`.
pub open spec fn sort_upto(s: Seq<Seq<char>>, k: int) -> Seq<Seq<char>>
    decreases k,
{
    if k <= 0 {
        Seq::empty()
    } else {
        sort_upto(s, k - 1) + s.filter(|x: Seq<char>| tile_rank(x) == k - 1)
    }
}

/// A Tenhou index names a red five exactly at 16, 52 and 88; every other
/// index in range names the plain tile type `index / 4`.
pub proof fn lemma_tenhou_red_exactly(index: int)
    requires
        0 <= index < 136,
    ensures
        (spec_tenhou_tile(index).len() == 3 && spec_tenhou_tile(index).last() == 'r') <==> (index
            == 16 || index == 52 || index == 88),
        !(index == 16 || index == 52 || index == 88) ==> spec_tenhou_tile(index) == kind_name(
            index / 4,
        ),
{
    let t = index / 4;
    assert(0 <= t < 34);
    if t < 27 {
        assert(kind_name(t).len() == 2);
    } else {
        assert(kind_name(t).len() == 1);
    }
}

/// `s` sorted into canonical mjai order (stable).
pub open spec fn sorted_tiles(s: Seq<Seq<char>>) -> Seq<Seq<char>> {
    sort_upto(s, rank_count())
}

/// Every tile has a rank in `0..38`.
pub proof fn lemma_tile_rank_range(t: Seq<char>)
    ensures
        0 <= tile_rank(t) < rank_count(),
{
}

/// Filtering keeps each value as often as the input holds it when the
/// value passes, and drops it otherwise.
pub proof fn lemma_filter_count(s: Seq<Seq<char>>, p: spec_fn(Seq<char>) -> bool, x: Seq<char>)
    ensures
        s.filter(p).to_multiset().count(x) == if p(x) {
            s.to_multiset().count(x)
        } else {
            0
        },
    decreases s.len(),
{
    broadcast use vstd::seq_lib::to_multiset_build;
    broadcast use vstd::multiset::group_multiset_axioms;

    reveal_with_fuel(Seq::filter, 1);
    if s.len() == 0 {
        assert(s.to_multiset() =~= vstd::multiset::Multiset::empty()) by {
            assert(s =~= Seq::<Seq<char>>::empty());
            vstd::seq_lib::to_multiset_len(s);
        }
        assert(s.filter(p) =~= s);
    } else {
        lemma_filter_count(s.drop_last(), p, x);
        assert(s =~= s.drop_last().push(s.last()));
    }
}

/// How often `x` occurs among the tiles of rank below `k`, sorted.
proof fn lemma_sort_upto_count(s: Seq<Seq<char>>, k: int, x: Seq<char>)
    ensures
        sort_upto(s, k).to_multiset().count(x) == if tile_rank(x) < k {
            s.to_multiset().count(x)
        } else {
            0
        },
    decreases k,
{
    broadcast use vstd::multiset::group_multiset_axioms;

    lemma_tile_rank_range(x);
    if k <= 0 {
        assert(sort_upto(s, k) =~= Seq::<Seq<char>>::empty());
        vstd::seq_lib::to_multiset_len(sort_upto(s, k));
        assert(sort_upto(s, k).to_multiset() =~= vstd::multiset::Multiset::empty());
    } else {
        let p = |t: Seq<char>| tile_rank(t) == k - 1;
        lemma_sort_upto_count(s, k - 1, x);
        lemma_filter_count(s, p, x);
        vstd::seq_lib::lemma_multiset_commutative(sort_upto(s, k - 1), s.filter(p));
    }
}

/// Sorting keeps every tile as often as it occurs: the result is a
/// permutation of the input.
pub proof fn lemma_sorted_tiles_permutation(s: Seq<Seq<char>>)
    ensures
        sorted_tiles(s).to_multiset() == s.to_multiset(),
{
    assert forall|x: Seq<char>| sorted_tiles(s).to_multiset().count(x) == s.to_multiset().count(x) by {
        lemma_sort_upto_count(s, rank_count(), x);
        lemma_tile_rank_range(x);
    }
    assert(sorted_tiles(s).to_multiset() =~= s.to_multiset());
}

/// The tiles of rank below `k`, sorted, have ranks below `k` in
/// non-decreasing order.
proof fn lemma_sort_upto_ordered(s: Seq<Seq<char>>, k: int)
    ensures
        forall|i: int| 0 <= i < sort_upto(s, k).len() ==> tile_rank(#[trigger] sort_upto(s, k)[i]) < k,
        forall|i: int, j: int|
            0 <= i <= j < sort_upto(s, k).len() ==> tile_rank(#[trigger] sort_upto(s, k)[i])
                <= tile_rank(#[trigger] sort_upto(s, k)[j]),
    decreases k,
{
    broadcast use vstd::seq_lib::group_filter_ensures;

    if k > 0 {
        lemma_sort_upto_ordered(s, k - 1);
        let p = |t: Seq<char>| tile_rank(t) == k - 1;
        let a = sort_upto(s, k - 1);
        let b = s.filter(p);
        let c = sort_upto(s, k);
        assert(c == a + b);
        assert forall|i: int| 0 <= i < c.len() implies tile_rank(#[trigger] c[i]) < k by {
            if i >= a.len() {
                assert(c[i] == b[i - a.len()]);
                assert(p(b[i - a.len()]));
            } else {
                assert(c[i] == a[i]);
            }
        }
        assert forall|i: int, j: int| 0 <= i <= j < c.len() implies tile_rank(#[trigger] c[i])
            <= tile_rank(#[trigger] c[j]) by {
            if j >= a.len() {
                assert(c[j] == b[j - a.len()]);
                assert(p(b[j - a.len()]));
                if i >= a.len() {
                    assert(c[i] == b[i - a.len()]);
                    assert(p(b[i - a.len()]));
                } else {
                    assert(c[i] == a[i]);
                }
            } else {
                assert(c[i] == a[i]);
                assert(c[j] == a[j]);
            }
        }
    }
}

/// Sorted tiles come in non-decreasing canonical order.
pub proof fn lemma_sorted_tiles_ordered(s: Seq<Seq<char>>)
    ensures
        forall|i: int, j: int|
            0 <= i <= j < sorted_tiles(s).len() ==> tile_rank(#[trigger] sorted_tiles(s)[i])
                <= tile_rank(#[trigger] sorted_tiles(s)[j]),
{
    lemma_sort_upto_ordered(s, rank_count());
}

// ---------------------------------------------------------------------------
// Executable
// ---------------------------------------------------------------------------

/// Builds an owned string from a string slice.
pub fn owned(s: &str) -> (r: String)
    ensures
        r@ == s@,
{
    s.to_string()
}

/// mjai name of tile type `t` (`0..34`).
pub fn tile_type_name(t: u8) -> (r: String)
    requires
        t < 34,
    ensures
        r@ == kind_name(t as int),
{
    match t {
        0 => {
            proof { reveal_strlit("1m"); }
            owned("1m")
        },
        1 => {
            proof { reveal_strlit("2m"); }
            owned("2m")
        },
        2 => {
            proof { reveal_strlit("3m"); }
            owned("3m")
        },
        3 => {
            proof { reveal_strlit("4m"); }
            owned("4m")
        },
        4 => {
            proof { reveal_strlit("5m"); }
            owned("5m")
        },
        5 => {
            proof { reveal_strlit("6m"); }
            owned("6m")
        },
        6 => {
            proof { reveal_strlit("7m"); }
            owned("7m")
        },
        7 => {
            proof { reveal_strlit("8m"); }
            owned("8m")
        },
        8 => {
            proof { reveal_strlit("9m"); }
            owned("9m")
        },
        9 => {
            proof { reveal_strlit("1p"); }
            owned("1p")
        },
        10 => {
            proof { reveal_strlit("2p"); }
            owned("2p")
        },
        11 => {
            proof { reveal_strlit("3p"); }
            owned("3p")
        },
        12 => {
            proof { reveal_strlit("4p"); }
            owned("4p")
        },
        13 => {
            proof { reveal_strlit("5p"); }
            owned("5p")
        },
        14 => {
            proof { reveal_strlit("6p"); }
            owned("6p")
        },
        15 => {
            proof { reveal_strlit("7p"); }
            owned("7p")
        },
        16 => {
            proof { reveal_strlit("8p"); }
            owned("8p")
        },
        17 => {
            proof { reveal_strlit("9p"); }
            owned("9p")
        },
        18 => {
            proof { reveal_strlit("1s"); }
            owned("1s")
        },
        19 => {
            proof { reveal_strlit("2s"); }
            owned("2s")
        },
        20 => {
            proof { reveal_strlit("3s"); }
            owned("3s")
        },
        21 => {
            proof { reveal_strlit("4s"); }
            owned("4s")
        },
        22 => {
            proof { reveal_strlit("5s"); }
            owned("5s")
        },
        23 => {
            proof { reveal_strlit("6s"); }
            owned("6s")
        },
        24 => {
            proof { reveal_strlit("7s"); }
            owned("7s")
        },
        25 => {
            proof { reveal_strlit("8s"); }
            owned("8s")
        },
        26 => {
            proof { reveal_strlit("9s"); }
            owned("9s")
        },
        27 => {
            proof { reveal_strlit("E"); }
            owned("E")
        },
        28 => {
            proof { reveal_strlit("S"); }
            owned("S")
        },
        29 => {
            proof { reveal_strlit("W"); }
            owned("W")
        },
        30 => {
            proof { reveal_strlit("N"); }
            owned("N")
        },
        31 => {
            proof { reveal_strlit("P"); }
            owned("P")
        },
        32 => {
            proof { reveal_strlit("F"); }
            owned("F")
        },
        33 => {
            proof { reveal_strlit("C"); }
            owned("C")
        },
        _ => {
            proof { reveal_strlit("C"); }
            owned("C")
        },
    }
}

/// mjai name of the red five of suit `k` (`0..3`).
pub fn red_five_tile(k: u8) -> (r: String)
    requires
        k < 3,
    ensures
        r@ == red_five_name(k as int),
{
    if k == 0 {
        proof { reveal_strlit("5mr"); }
        owned("5mr")
    } else if k == 1 {
        proof { reveal_strlit("5pr"); }
        owned("5pr")
    } else {
        proof { reveal_strlit("5sr"); }
        owned("5sr")
    }
}

/// The unknown-tile placeholder `"?"`.
pub fn unknown_tile() -> (r: String)
    ensures
        r@ == seq!['?'],
{
    proof { reveal_strlit("?"); }
    owned("?")
}

/// Map a tile index in 34-space (`0..34`) to its mjai name. Red fives are
/// not distinguished in this space, so the result never carries an `r`.
pub fn tid34_to_mjai(idx: u8) -> (r: String)
    requires
        idx < 34,
    ensures
        r@ == kind_name(idx as int),
{
    tile_type_name(idx)
}

/// Convert a single Tenhou tile index to its mjai string. Indices past 135
/// become `"?"` instead of panicking.
pub fn tenhou_to_mjai_one(index: u32) -> (r: String)
    ensures
        r@ == spec_tenhou_tile(index as int),
{
    let t = index / 4;
    if t >= 34 {
        return unknown_tile();
    }
    if index == 16 || index == 52 || index == 88 {
        red_five_tile((t / 9) as u8)
    } else {
        tile_type_name(t as u8)
    }
}

/// A 136-space tile id as the riichi engine names it: like Tenhou's
/// numbering in range; past the last honor, `"<n>z"` with
/// `n = (tid - 108) / 4 + 1`.
pub open spec fn spec_tid_to_mjai(tid: u8) -> Seq<char> {
    if tid < 136 {
        spec_tenhou_tile(tid as int)
    } else {
        crate::util::decimal_text(((tid - 108) / 4 + 1) as nat).push('z')
    }
}

/// Name of a 136-space tile id in the riichi engine's notation.
pub fn tid_to_mjai(tid: u8) -> (r: String)
    ensures
        r@ == spec_tid_to_mjai(tid),
{
    if tid < 136 {
        tenhou_to_mjai_one(tid as u32)
    } else {
        proof { reveal_strlit("z"); }
        let n = crate::util::decimal(((tid - 108) / 4 + 1) as u64);
        let r = n.concat("z");
        assert(r@ =~= spec_tid_to_mjai(tid));
        r
    }
}

/// Vector form of [`tenhou_to_mjai_one`].
pub fn tenhou_to_mjai(indices: &[u32]) -> (r: Vec<String>)
    ensures
        r@.len() == indices@.len(),
        forall|i: int| 0 <= i < indices@.len() ==> #[trigger] r@[i]@ == spec_tenhou_tile(indices@[i] as int),
{
    let mut out: Vec<String> = Vec::new();
    let n = indices.len();
    for i in 0..n
        invariant
            n == indices@.len(),
            out@.len() == i,
            forall|j: int| 0 <= j < i ==> #[trigger] out@[j]@ == spec_tenhou_tile(indices@[j] as int),
    {
        out.push(tenhou_to_mjai_one(indices[i]));
    }
    out
}

/// Exec digit value of a character (`-1` for non-digits).
fn digit_of(c: char) -> (r: i8)
    ensures
        r as int == digit_value(c),
{
    if c == '0' {
        0
    } else if c == '1' {
        1
    } else if c == '2' {
        2
    } else if c == '3' {
        3
    } else if c == '4' {
        4
    } else if c == '5' {
        5
    } else if c == '6' {
        6
    } else if c == '7' {
        7
    } else if c == '8' {
        8
    } else if c == '9' {
        9
    } else {
        -1
    }
}

fn suit_of(c: char) -> (r: i8)
    ensures
        r as int == suit_index(c),
{
    if c == 'm' {
        0
    } else if c == 'p' {
        1
    } else if c == 's' {
        2
    } else {
        -1
    }
}

fn honor_of(c: char) -> (r: i8)
    ensures
        r as int == honor_index(c),
{
    if c == 'E' {
        0
    } else if c == 'S' {
        1
    } else if c == 'W' {
        2
    } else if c == 'N' {
        3
    } else if c == 'P' {
        4
    } else if c == 'F' {
        5
    } else if c == 'C' {
        6
    } else {
        -1
    }
}

/// Canonical mjai order position of a tile (see [`tile_rank`]).
pub fn tile_rank_of(s: &str) -> (r: u8)
    ensures
        r as int == tile_rank(s@),
        r < 38,
{
    let n = s.unicode_len();
    if n == 2 {
        let d = digit_of(s.get_char(0));
        let k = suit_of(s.get_char(1));
        if 1 <= d && k >= 0 {
            let base = (k as u8) * 10;
            return if d <= 5 {
                base + (d as u8) - 1
            } else {
                base + (d as u8)
            };
        }
    } else if n == 3 {
        let k = suit_of(s.get_char(1));
        if s.get_char(0) == '5' && k >= 0 && s.get_char(2) == 'r' {
            return (k as u8) * 10 + 5;
        }
    } else if n == 1 {
        let h = honor_of(s.get_char(0));
        if h >= 0 {
            return 30 + (h as u8);
        }
    }
    37
}

/// Compare two tiles by their position in the canonical mjai order.
pub fn compare_pai(a: &str, b: &str) -> (r: std::cmp::Ordering)
    ensures
        r == if tile_rank(a@) < tile_rank(b@) {
            std::cmp::Ordering::Less
        } else if tile_rank(a@) > tile_rank(b@) {
            std::cmp::Ordering::Greater
        } else {
            std::cmp::Ordering::Equal
        },
{
    let x = tile_rank_of(a);
    let y = tile_rank_of(b);
    if x < y {
        std::cmp::Ordering::Less
    } else if x > y {
        std::cmp::Ordering::Greater
    } else {
        std::cmp::Ordering::Equal
    }
}

/// Majsoul tile string → mjai tile string (`0m/0p/0s` → red fives,
/// `1z..7z` → E S W N P F C). `None` for anything that is not a Majsoul tile.
pub fn ms_to_mjai(s: &str) -> (r: Option<String>)
    ensures
        match spec_ms_tile(s@) {
            Some(t) => r matches Some(x) && x@ == t,
            None => r is None,
        },
{
    if s.unicode_len() != 2 {
        return None;
    }
    let c0 = s.get_char(0);
    let k = suit_of(s.get_char(1));
    let d = digit_of(c0);
    if k >= 0 && c0 == '0' {
        Some(red_five_tile(k as u8))
    } else if k >= 0 && 1 <= d {
        Some(owned(s))
    } else if s.get_char(1) == 'z' && 1 <= d && d <= 7 {
        Some(tile_type_name(27 + (d as u8) - 1))
    } else {
        None
    }
}


/// Sort tiles into canonical mjai order (stable; the red five directly
/// after the normal five of its suit).
pub fn sort_tiles(v: &Vec<String>) -> (r: Vec<String>)
    ensures
        views(r@) == sorted_tiles(views(v@)),
{
    let mut out: Vec<String> = Vec::new();
    let n = v.len();
    let ghost sv = views(v@);
    let mut k: u8 = 0;
    while k < 38
        invariant
            n == v@.len(),
            sv == views(v@),
            k <= 38,
            views(out@) == sort_upto(sv, k as int),
        decreases 38 - k,
    {
        let ghost pred = |x: Seq<char>| tile_rank(x) == k as int;
        let ghost before = views(out@);
        assert(sv.take(0) =~= Seq::<Seq<char>>::empty());
        let mut i: usize = 0;
        while i < n
            invariant
                n == v@.len(),
                sv == views(v@),
                i <= n,
                k < 38,
                pred == (|x: Seq<char>| tile_rank(x) == k as int),
                before == sort_upto(sv, k as int),
                views(out@) == before + sv.take(i as int).filter(pred),
            decreases n - i,
        {
            proof {
                lemma_take_push_filter(sv, i as int, pred);
            }
            if tile_rank_of(v[i].as_str()) == k {
                let ghost old_out = out@;
                out.push(v[i].clone());
                assert(views(out@) =~= views(old_out).push(v@[i as int]@));
            }
            i += 1;
        }
        assert(sv.take(n as int) =~= sv);
        k += 1;
    }
    out
}

proof fn lemma_take_push_filter(s: Seq<Seq<char>>, i: int, pred: spec_fn(Seq<char>) -> bool)
    requires
        0 <= i < s.len(),
    ensures
        s.take(i + 1).filter(pred) == if pred(s[i]) {
            s.take(i).filter(pred).push(s[i])
        } else {
            s.take(i).filter(pred)
        },
{
    reveal_with_fuel(Seq::filter, 1);
    assert(s.take(i + 1).drop_last() =~= s.take(i));
}

fn five_parts_of(s: &str) -> (r: Option<(u8, bool)>)
    ensures
        match five_parts(s@) {
            Some((k, red)) => r matches Some((kk, rr)) && kk as int == k && rr == red,
            None => r is None,
        },
{
    let n = s.unicode_len();
    if n == 2 {
        let k = suit_of(s.get_char(1));
        if s.get_char(0) == '5' && k >= 0 {
            return Some((k as u8, false));
        }
    } else if n == 3 {
        let k = suit_of(s.get_char(1));
        if s.get_char(0) == '5' && k >= 0 && s.get_char(2) == 'r' {
            return Some((k as u8, true));
        }
    }
    None
}

/// `5m` vs `5mr` (etc.): the two tiles name the same five, one red and one
/// not. Only safe for matching observed discards and call candidates.
pub fn red_five_only_mismatch(a: &str, b: &str) -> (r: bool)
    ensures
        r == spec_red_five_only_mismatch(a@, b@),
{
    match (five_parts_of(a), five_parts_of(b)) {
        (Some((ka, ra)), Some((kb, rb))) => ka == kb && ra != rb,
        _ => false,
    }
}

/// Exact string equality of two tiles.
pub fn same_tile(a: &str, b: &str) -> (r: bool)
    ensures
        r == (a@ == b@),
{
    owned(a) == owned(b)
}

/// Equality up to the red-five marker.
pub fn same_tile_relaxed(a: &str, b: &str) -> (r: bool)
    ensures
        r == spec_same_tile_relaxed(a@, b@),
{
    same_tile(a, b) || red_five_only_mismatch(a, b)
}

/// Compare a tile now on the tracker river with the bot's `dahai.pai`.
pub fn tracked_discard_matches_bot_tile(river_tile: &str, bot_pai: &str) -> (r: bool)
    ensures
        r == spec_same_tile_relaxed(river_tile@, bot_pai@),
{
    same_tile_relaxed(river_tile, bot_pai)
}

/// Strip one trailing red marker `'r'`.
pub fn strip_red_marker(tile: &str) -> (r: &str)
    ensures
        r@ == strip_one_r(tile@),
{
    let n = tile.unicode_len();
    if n > 0 && tile.get_char(n - 1) == 'r' {
        let r = tile.substring_char(0, n - 1);
        assert(r@ =~= tile@.drop_last());
        r
    } else {
        tile
    }
}

/// Remove every trailing `'r'`.
pub fn trim_red_markers(tile: &str) -> (r: String)
    ensures
        r@ == trim_trailing_r(tile@),
{
    let mut n = tile.unicode_len();
    assert(tile@.take(n as int) =~= tile@);
    while n > 0 && tile.get_char(n - 1) == 'r'
        invariant
            n <= tile@.len(),
            trim_trailing_r(tile@) == trim_trailing_r(tile@.take(n as int)),
        decreases n,
    {
        assert(tile@.take(n as int).drop_last() =~= tile@.take(n - 1));
        n -= 1;
    }
    let r = tile.substring_char(0, n);
    assert(r@ =~= tile@.take(n as int));
    owned(r)
}

/// True if `pai` is a numbered five (`5m`, `5p`, `5s`), the only tiles with
/// a red counterpart.
pub fn pai_has_red_form(pai: &str) -> (r: bool)
    ensures
        r == spec_has_red_form(pai@),
{
    match five_parts_of(pai) {
        Some((_, red)) => !red,
        None => false,
    }
}

/// `pai` followed by the red marker.
fn with_red_marker(pai: String) -> (r: String)
    ensures
        r@ == pai@.push('r'),
{
    proof { reveal_strlit("r"); }
    let r = pai.concat("r");
    assert(r@ =~= pai@.push('r'));
    r
}

/// The four tiles of an ankan on `pai`: four normal copies, except that the
/// first is the red five when the tile has a red form.
pub open spec fn spec_ankan_consumed(pai: Seq<char>) -> Seq<Seq<char>> {
    let normal = trim_trailing_r(pai);
    if spec_has_red_form(normal) {
        seq![normal.push('r'), normal, normal, normal]
    } else {
        seq![normal, normal, normal, normal]
    }
}

/// The three tiles of the pon a kakan on `pai` extends: the red five sits
/// in the pon unless the added tile is itself the red five.
pub open spec fn spec_kakan_consumed(pai: Seq<char>) -> Seq<Seq<char>> {
    let normal = trim_trailing_r(pai);
    if spec_has_red_form(normal) && !(pai.len() > 0 && pai.last() == 'r') {
        seq![normal.push('r'), normal, normal]
    } else {
        seq![normal, normal, normal]
    }
}

/// Views of a vector of strings.
pub open spec fn views(v: Seq<String>) -> Seq<Seq<char>> {
    v.map_values(|s: String| s@)
}

/// Consumed tiles of an ankan (red five first when present).
pub fn ankan_consumed(pai: &str) -> (r: Vec<String>)
    ensures
        views(r@) == spec_ankan_consumed(pai@),
{
    let normal = trim_red_markers(pai);
    let first = if pai_has_red_form(normal.as_str()) {
        with_red_marker(normal.clone())
    } else {
        normal.clone()
    };
    let r = vec![first, normal.clone(), normal.clone(), normal];
    assert(views(r@) =~= spec_ankan_consumed(pai@));
    r
}

/// Consumed tiles of a kakan: the three tiles of the existing pon.
pub fn kakan_consumed(pai: &str) -> (r: Vec<String>)
    ensures
        views(r@) == spec_kakan_consumed(pai@),
{
    let normal = trim_red_markers(pai);
    let n = pai.unicode_len();
    let ends_r = n > 0 && pai.get_char(n - 1) == 'r';
    let first = if pai_has_red_form(normal.as_str()) && !ends_r {
        with_red_marker(normal.clone())
    } else {
        normal.clone()
    };
    let r = vec![first, normal.clone(), normal];
    assert(views(r@) =~= spec_kakan_consumed(pai@));
    r
}

} // verus!
