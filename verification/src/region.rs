//! QuickDraw regions and their decoding into pixel masks.

use vstd::prelude::*;
use crate::shared::Rect;

verus! {

broadcast use vstd::seq_lib::group_seq_properties;

/// QuickDraw region, represented as a run-length encoded mask.
#[derive(Debug)]
pub struct Region {
    /// Encoded region record size in bytes.
    pub size: u16,
    /// Bounding box for the region, if present.
    pub bounding_box: Option<Rect>,
    /// Encoded row/column toggle data.
    pub data: Vec<i16>,
    /// Cached decoded mask; `wf` says it is the decoding of the record.
    pub decoded_mask: Option<Vec<u8>>,
}

/// The row or column index that `t` denotes once converted to a 64-bit
/// `usize`: negative values wrap around to the top of the range.
pub open spec fn wrap64(t: i16) -> int {
    if t >= 0 { t as int } else { t as int + 0x1_0000_0000_0000_0000 }
}

/// Rows `[a, b)` of `image` replaced by `scan`.
pub open spec fn fill_rows(image: Seq<Seq<u8>>, scan: Seq<u8>, a: int, b: int) -> Seq<Seq<u8>> {
    Seq::new(image.len(), |r: int| if a <= r < b { scan } else { image[r] })
}

/// `scan` with the columns in `[s, e)` toggled between 0 and 1.
pub open spec fn toggle(scan: Seq<u8>, s: int, e: int) -> Seq<u8> {
    Seq::new(scan.len(), |c: int| if s <= c < e { if scan[c] == 0 { 1u8 } else { 0u8 } } else { scan[c] })
}

/// Decoding at the start of a row record (token `i`), with the rows before
/// `last` settled. `None` where decoding would abort.
pub open spec fn mask_outer(d: Seq<i16>, i: int, w: int, h: int, image: Seq<Seq<u8>>, scan: Seq<u8>, last: int) -> Option<Seq<Seq<u8>>>
    decreases d.len() - i, 1int,
{
    if i < 0 || i >= d.len() {
        Some(image)
    } else if d[i] == 0x7fff {
        Some(if last < h { fill_rows(image, scan, last, h) } else { image })
    } else {
        let row = wrap64(d[i]);
        if w > 0 && last < row && row > h {
            None
        } else {
            mask_inner(d, i + 1, w, h, fill_rows(image, scan, last, row), scan, row)
        }
    }
}

/// Decoding inside the record of row `row` (token `i`): pairs of columns
/// toggle the running scanline until the end marker, which writes it to
/// `row`. `None` where decoding would abort.
pub open spec fn mask_inner(d: Seq<i16>, i: int, w: int, h: int, image: Seq<Seq<u8>>, scan: Seq<u8>, row: int) -> Option<Seq<Seq<u8>>>
    decreases d.len() - i, 0int,
{
    if i < 0 || i >= d.len() {
        Some(image)
    } else if d[i] == 0x7fff {
        mask_outer(d, i + 1, w, h, if row < h { image.update(row, scan) } else { image }, scan, row)
    } else if row >= h {
        mask_inner(d, i + 1, w, h, image, scan, row)
    } else if i + 1 >= d.len() {
        Some(image)
    } else {
        let s = wrap64(d[i]);
        let e = wrap64(d[i + 1]);
        if e < s {
            None
        } else {
            mask_inner(d, i + 2, w, h, image, toggle(scan, s, e), row)
        }
    }
}

/// Whether `rows` holds `h` rows of `w` bytes each.
pub open spec fn shaped(rows: Seq<Seq<u8>>, w: int, h: int) -> bool {
    rows.len() == h && forall|r: int| 0 <= r < h ==> (#[trigger] rows[r]).len() == w
}

proof fn lemma_outer_shape(d: Seq<i16>, i: int, w: int, h: int, image: Seq<Seq<u8>>, scan: Seq<u8>, last: int)
    requires
        shaped(image, w, h),
        scan.len() == w,
    ensures
        mask_outer(d, i, w, h, image, scan, last) matches Some(rows) ==> shaped(rows, w, h),
    decreases d.len() - i, 1int,
{
    if i < 0 || i >= d.len() {
    } else if d[i] == 0x7fff {
    } else {
        let row = wrap64(d[i]);
        if !(w > 0 && last < row && row > h) {
            lemma_inner_shape(d, i + 1, w, h, fill_rows(image, scan, last, row), scan, row);
        }
    }
}

proof fn lemma_inner_shape(d: Seq<i16>, i: int, w: int, h: int, image: Seq<Seq<u8>>, scan: Seq<u8>, row: int)
    requires
        shaped(image, w, h),
        row >= 0,
        scan.len() == w,
    ensures
        mask_inner(d, i, w, h, image, scan, row) matches Some(rows) ==> shaped(rows, w, h),
    decreases d.len() - i, 0int,
{
    if i < 0 || i >= d.len() {
    } else if d[i] == 0x7fff {
        let next = if row < h { image.update(row, scan) } else { image };
        lemma_outer_shape(d, i + 1, w, h, next, scan, row);
    } else if row >= h {
        lemma_inner_shape(d, i + 1, w, h, image, scan, row);
    } else if i + 1 >= d.len() {
    } else {
        let s = wrap64(d[i]);
        let e = wrap64(d[i + 1]);
        if e >= s {
            lemma_inner_shape(d, i + 2, w, h, image, toggle(scan, s, e), row);
        }
    }
}

proof fn lemma_flatten_shaped(rows: Seq<Seq<u8>>, w: int, h: int)
    requires
        shaped(rows, w, h),
        w >= 0,
    ensures
        rows.flatten().len() == w * h,
    decreases h,
{
    if h > 0 {
        lemma_flatten_shaped(rows.drop_first(), w, h - 1);
        assert(w * h == w + w * (h - 1)) by (nonlinear_arith);
    } else {
        assert(rows.len() == 0);
    }
}

/// The decoded mask of a region with a bounding box has one byte per pixel
/// of `[0, right) x [0, bottom)`.
pub proof fn law_mask_size(size: u16, rect: Rect, d: Seq<i16>)
    requires
        spec_mask(size, Some(rect), d) is Some,
    ensures
        spec_mask(size, Some(rect), d)->0.len() == rect.right * rect.bottom,
{
    let w = rect.right as int;
    let h = rect.bottom as int;
    let u0 = uniform_rows(w, h, 0);
    let u1 = uniform_rows(w, h, 1);
    assert(shaped(u0, w, h));
    assert(shaped(u1, w, h));
    if d.len() == 0 {
        lemma_flatten_shaped(u1, w, h);
    } else {
        let scan = Seq::new(w as nat, |c: int| 0u8);
        lemma_outer_shape(d, 0, w, h, u0, scan, 0);
        let rows = mask_outer(d, 0, w, h, u0, scan, 0)->0;
        lemma_flatten_shaped(rows, w, h);
    }
    assert(w * h == rect.right * rect.bottom);
}

proof fn lemma_flatten_index(rows: Seq<Seq<u8>>, w: int, h: int, r: int, c: int)
    requires
        shaped(rows, w, h),
        0 <= r < h,
        0 <= c < w,
    ensures
        rows.flatten()[r * w + c] == rows[r][c],
    decreases h,
{
    let tail = rows.drop_first();
    assert(shaped(tail, w, h - 1)) by {
        assert forall|q: int| 0 <= q < h - 1 implies (#[trigger] tail[q]).len() == w by {
            assert(tail[q] == rows[q + 1]);
        }
    }
    lemma_flatten_shaped(tail, w, h - 1);
    assert(rows.flatten() == rows[0] + tail.flatten());
    assert(rows[0].len() == w);
    if r > 0 {
        let k = (r - 1) * w + c;
        lemma_flatten_index(tail, w, h - 1, r - 1, c);
        assert(r * w + c == w + k) by (nonlinear_arith)
            requires k == (r - 1) * w + c;
        assert(0 <= k < w * (h - 1)) by (nonlinear_arith)
            requires k == (r - 1) * w + c, 1 <= r < h, 0 <= c < w;
        assert(tail[r - 1] == rows[r]);
        assert((rows[0] + tail.flatten())[w + k] == tail.flatten()[k]);
    } else {
        assert(r * w + c == c) by (nonlinear_arith)
            requires r == 0;
        assert((rows[0] + tail.flatten())[c] == rows[0][c]);
    }
}

/// The rows of a `w` x `h` mask holding one rectangle: rows `[top, bottom)`
/// by columns `[left, right)`.
pub open spec fn rectangle_rows(w: int, h: int, top: int, bottom: int, left: int, right: int) -> Seq<Seq<u8>> {
    Seq::new(h as nat, |r: int| Seq::new(w as nat, |c: int|
        if top <= r < bottom && left <= c < right { 1u8 } else { 0u8 }))
}

/// A rectangular region is decoded to exactly its rectangle: when its
/// toggle data is the row record of the top edge and the row record of the
/// bottom edge, each toggling columns `[left, right)`, a pixel of the mask
/// is set exactly when it lies in rows `[top, bottom)` and columns
/// `[left, right)`, whatever number of rows lies between the two records.
pub proof fn law_rectangle_mask(size: u16, bbox: Rect, top: i16, bottom: i16, left: i16, right: i16, r: int, c: int)
    requires
        size % 2 == 0,
        0 <= top < bottom <= bbox.bottom < 0x7fff,
        0 <= left <= right <= bbox.right < 0x7fff,
        0 <= r < bbox.bottom,
        0 <= c < bbox.right,
    ensures
        spec_mask(size, Some(bbox), seq![top, left, right, 0x7fffi16, bottom, left, right, 0x7fffi16, 0x7fffi16])
            matches Some(m) && m[r * bbox.right + c] == (if top <= r < bottom && left <= c < right { 1u8 } else { 0u8 }),
{
    let d = seq![top, left, right, 0x7fffi16, bottom, left, right, 0x7fffi16, 0x7fffi16];
    let w = bbox.right as int;
    let h = bbox.bottom as int;
    let t = top as int;
    let b = bottom as int;
    let u0 = uniform_rows(w, h, 0);
    let z = Seq::new(w as nat, |q: int| 0u8);
    let img1 = fill_rows(u0, z, 0, t);
    let sc1 = toggle(z, left as int, right as int);
    assert(d[0] == top && d[1] == left && d[2] == right && d[3] == 0x7fffi16 && d[4] == bottom);
    assert(d[5] == left && d[6] == right && d[7] == 0x7fffi16 && d[8] == 0x7fffi16);
    assert(mask_inner(d, 3, w, h, img1, sc1, t) == mask_outer(d, 4, w, h, img1.update(t, sc1), sc1, t));
    assert(mask_inner(d, 1, w, h, img1, z, t) == mask_inner(d, 3, w, h, img1, sc1, t));
    assert(mask_outer(d, 0, w, h, u0, z, 0) == mask_inner(d, 1, w, h, img1, z, t));
    let img2 = img1.update(t, sc1);
    let img3 = fill_rows(img2, sc1, t, b);
    assert(mask_outer(d, 4, w, h, img2, sc1, t) == mask_inner(d, 5, w, h, img3, sc1, b));
    let result = if b < h {
        let sc2 = toggle(sc1, left as int, right as int);
        let img4 = img3.update(b, sc2);
        assert(mask_outer(d, 8, w, h, img4, sc2, b) == Some(fill_rows(img4, sc2, b, h)));
        assert(mask_inner(d, 7, w, h, img3, sc2, b) == mask_outer(d, 8, w, h, img4, sc2, b));
        assert(mask_inner(d, 5, w, h, img3, sc1, b) == mask_inner(d, 7, w, h, img3, sc2, b));
        assert(sc2 =~= z);
        fill_rows(img4, sc2, b, h)
    } else {
        assert(mask_outer(d, 8, w, h, img3, sc1, b) == Some(img3));
        assert(mask_inner(d, 7, w, h, img3, sc1, b) == mask_outer(d, 8, w, h, img3, sc1, b));
        assert(mask_inner(d, 6, w, h, img3, sc1, b) == mask_inner(d, 7, w, h, img3, sc1, b));
        assert(mask_inner(d, 5, w, h, img3, sc1, b) == mask_inner(d, 6, w, h, img3, sc1, b));
        img3
    };
    let expected = rectangle_rows(w, h, t, b, left as int, right as int);
    assert(result =~= expected) by {
        assert forall|q: int| 0 <= q < h implies #[trigger] result[q] =~= expected[q] by {
            if t <= q < b {
                assert(result[q] == sc1);
            } else {
                assert(result[q] =~= z);
            }
        }
    }
    assert(mask_outer(d, 0, w, h, u0, z, 0) == Some(result));
    assert(shaped(expected, w, h));
    lemma_flatten_index(expected, w, h, r, c);
}

/// A region with one row record and no closing record is open below: its
/// mask sets columns `[left, right)` of every row from `top` to the bottom
/// of the bounding box, and nothing else.
pub proof fn law_open_band_mask(size: u16, bbox: Rect, top: i16, left: i16, right: i16, r: int, c: int)
    requires
        size % 2 == 0,
        0 <= top < bbox.bottom < 0x7fff,
        0 <= left <= right <= bbox.right < 0x7fff,
        0 <= r < bbox.bottom,
        0 <= c < bbox.right,
    ensures
        spec_mask(size, Some(bbox), seq![top, left, right, 0x7fffi16, 0x7fffi16])
            matches Some(m) && m[r * bbox.right + c] == (if top <= r && left <= c < right { 1u8 } else { 0u8 }),
{
    let d = seq![top, left, right, 0x7fffi16, 0x7fffi16];
    let w = bbox.right as int;
    let h = bbox.bottom as int;
    let t = top as int;
    let u0 = uniform_rows(w, h, 0);
    let z = Seq::new(w as nat, |q: int| 0u8);
    let img1 = fill_rows(u0, z, 0, t);
    let sc1 = toggle(z, left as int, right as int);
    assert(d[0] == top && d[1] == left && d[2] == right && d[3] == 0x7fffi16 && d[4] == 0x7fffi16);
    let img2 = img1.update(t, sc1);
    let result = fill_rows(img2, sc1, t, h);
    assert(mask_outer(d, 4, w, h, img2, sc1, t) == Some(result));
    assert(mask_inner(d, 3, w, h, img1, sc1, t) == mask_outer(d, 4, w, h, img2, sc1, t));
    assert(mask_inner(d, 1, w, h, img1, z, t) == mask_inner(d, 3, w, h, img1, sc1, t));
    assert(mask_outer(d, 0, w, h, u0, z, 0) == mask_inner(d, 1, w, h, img1, z, t));
    let expected = rectangle_rows(w, h, t, h, left as int, right as int);
    assert(result =~= expected) by {
        assert forall|q: int| 0 <= q < h implies #[trigger] result[q] =~= expected[q] by {
            if t <= q {
                assert(result[q] == sc1);
            } else {
                assert(result[q] =~= z);
            }
        }
    }
    assert(shaped(expected, w, h));
    lemma_flatten_index(expected, w, h, r, c);
}

/// A region with a bounding box and no toggle data covers its whole box:
/// every pixel of `[0, right) x [0, bottom)` is set.
pub proof fn law_full_box_mask(size: u16, bbox: Rect, r: int, c: int)
    requires
        size % 2 == 0,
        0 <= r < bbox.bottom,
        0 <= c < bbox.right,
    ensures
        spec_mask(size, Some(bbox), Seq::<i16>::empty()) matches Some(m) && m[r * bbox.right + c] == 1u8,
{
    let rows = uniform_rows(bbox.right as int, bbox.bottom as int, 1);
    assert(shaped(rows, bbox.right as int, bbox.bottom as int));
    lemma_flatten_index(rows, bbox.right as int, bbox.bottom as int, r, c);
}

/// Rows of `w` bytes, `h` of them, all equal to `v`.
pub open spec fn uniform_rows(w: int, h: int, v: u8) -> Seq<Seq<u8>> {
    Seq::new(h as nat, |r: int| Seq::new(w as nat, |c: int| v))
}

/// The mask of a region, row after row, one byte per pixel of the bounding
/// box's `[0, right) x [0, bottom)` area (1 inside the region, 0 outside):
/// every pixel when there is no toggle data, nothing without a bounding
/// box. `None` for a record of odd size, a bounding box reaching below
/// zero, or data that would make the decoder abort.
pub open spec fn spec_mask(size: u16, bounding_box: Option<Rect>, d: Seq<i16>) -> Option<Seq<u8>> {
    if size % 2 != 0 {
        None
    } else {
        match bounding_box {
            None => Some(Seq::empty()),
            Some(rect) => {
                let w = rect.right as int;
                let h = rect.bottom as int;
                if w < 0 || h < 0 {
                    None
                } else if d.len() == 0 {
                    Some(uniform_rows(w, h, 1).flatten())
                } else {
                    match mask_outer(d, 0, w, h, uniform_rows(w, h, 0), Seq::new(w as nat, |c: int| 0u8), 0) {
                        Some(rows) => Some(rows.flatten()),
                        None => None,
                    }
                }
            },
        }
    }
}

/// Converts a token to the 64-bit index it denotes.
fn wrap_index(t: i16) -> (r: u64)
    ensures
        r as int == wrap64(t),
{
    if t >= 0 {
        t as u64
    } else {
        let m: u64 = (-(t as i32)) as u64;
        u64::MAX - (m - 1)
    }
}

fn copy_bytes(v: &Vec<u8>) -> (r: Vec<u8>)
    ensures
        r@ == v@,
{
    let mut r: Vec<u8> = Vec::new();
    let mut i: usize = 0;
    while i < v.len()
        invariant
            i <= v.len(),
            r@ == v@.take(i as int),
        decreases v.len() - i,
    {
        r.push(v[i]);
        assert(v@.take(i + 1) == v@.take(i as int).push(v@[i as int]));
        i += 1;
    }
    assert(v@.take(v.len() as int) == v@);
    r
}

fn filled_bytes(w: usize, v: u8) -> (r: Vec<u8>)
    ensures
        r@ == Seq::new(w as nat, |c: int| v),
{
    let mut r: Vec<u8> = Vec::new();
    let mut i: usize = 0;
    while i < w
        invariant
            i <= w,
            r@ == Seq::new(i as nat, |c: int| v),
        decreases w - i,
    {
        r.push(v);
        assert(Seq::new((i + 1) as nat, |c: int| v) == Seq::new(i as nat, |c: int| v).push(v));
        i += 1;
    }
    r
}

fn uniform_rows_exec(w: usize, h: usize, v: u8) -> (r: Vec<Vec<u8>>)
    ensures
        r@.len() == h,
        forall|k: int| 0 <= k < h ==> #[trigger] r@[k]@ == Seq::new(w as nat, |c: int| v),
{
    let mut r: Vec<Vec<u8>> = Vec::new();
    let mut i: usize = 0;
    while i < h
        invariant
            i <= h,
            r@.len() == i,
            forall|k: int| 0 <= k < i ==> #[trigger] r@[k]@ == Seq::new(w as nat, |c: int| v),
        decreases h - i,
    {
        r.push(filled_bytes(w, v));
        i += 1;
    }
    r
}

/// The contents of a vector of rows.
pub open spec fn rows_view(rows: Seq<Vec<u8>>) -> Seq<Seq<u8>> {
    Seq::new(rows.len(), |k: int| rows[k]@)
}

fn flatten_rows(rows: &Vec<Vec<u8>>) -> (r: Vec<u8>)
    ensures
        r@ == rows_view(rows@).flatten(),
{
    let mut out: Vec<u8> = Vec::new();
    let mut k: usize = 0;
    while k < rows.len()
        invariant
            k <= rows.len(),
            out@ == rows_view(rows@).take(k as int).flatten(),
        decreases rows.len() - k,
    {
        let ghost before = out@;
        let row = &rows[k];
        let mut j: usize = 0;
        while j < row.len()
            invariant
                j <= row.len(),
                out@ == before + row@.take(j as int),
            decreases row.len() - j,
        {
            out.push(row[j]);
            assert(row@.take(j + 1) == row@.take(j as int).push(row@[j as int]));
            j += 1;
        }
        assert(row@.take(row.len() as int) == row@);
        proof {
            rows_view(rows@).take(k as int).lemma_flatten_push(row@);
            assert(rows_view(rows@).take(k + 1) == rows_view(rows@).take(k as int).push(row@));
        }
        k += 1;
    }
    assert(rows_view(rows@).take(rows.len() as int) == rows_view(rows@));
    out
}

/// Replaces rows `[a, min(b, rows.len()))` with copies of `scan`.
fn fill_rows_exec(rows: &mut Vec<Vec<u8>>, scan: &Vec<u8>, a: u64, b: u64)
    ensures
        rows_view(final(rows)@) == fill_rows(rows_view(old(rows)@), scan@, a as int, b as int),
{
    let n = rows.len();
    let mut r: usize = 0;
    while r < n
        invariant
            n == rows.len(),
            r <= n,
            rows@.len() == old(rows)@.len(),
            forall|k: int| 0 <= k < r ==> #[trigger] rows@[k]@ == fill_rows(rows_view(old(rows)@), scan@, a as int, b as int)[k],
            forall|k: int| r <= k < n ==> #[trigger] rows@[k] == old(rows)@[k],
        decreases n - r,
    {
        if a <= r as u64 && (r as u64) < b {
            rows.set(r, copy_bytes(scan));
        }
        r += 1;
    }
    assert(rows_view(rows@) == fill_rows(rows_view(old(rows)@), scan@, a as int, b as int));
}

fn toggle_exec(scan: &mut Vec<u8>, s: u64, e: u64)
    ensures
        final(scan)@ == toggle(old(scan)@, s as int, e as int),
{
    let n = scan.len();
    let mut c: usize = 0;
    while c < n
        invariant
            n == scan.len(),
            c <= n,
            scan@.len() == n,
            old(scan)@.len() == n,
            forall|k: int| 0 <= k < c ==> #[trigger] scan@[k] == toggle(old(scan)@, s as int, e as int)[k],
            forall|k: int| c <= k < n ==> #[trigger] scan@[k] == old(scan)@[k],
        decreases n - c,
    {
        if s <= c as u64 && (c as u64) < e {
            let v = if scan[c] == 0 { 1u8 } else { 0u8 };
            scan.set(c, v);
        }
        c += 1;
    }
    assert(scan@ == toggle(old(scan)@, s as int, e as int));
}

/// What a region answers to point queries: its bounding box and its decoded
/// mask, if any.
pub type RegionView = (Option<Rect>, Option<Seq<u8>>);

/// The view of a region as it stands.
pub open spec fn region_view(r: Region) -> RegionView {
    (r.bounding_box, r.spec_decoded_mask())
}

/// The view of a region once its mask is prepared.
pub open spec fn prepared_view(r: Region) -> RegionView {
    if r.spec_is_prepared() {
        region_view(r)
    } else {
        (r.bounding_box, spec_mask(r.size, r.bounding_box, r.data@))
    }
}

/// Whether preparing the region's mask succeeds (the decoder would not
/// abort on it).
pub open spec fn preparable(r: Region) -> bool {
    r.wf() && (r.spec_is_prepared() || r.spec_mask_defined())
}

/// Whether `(x, y)` lies in the region seen as `v`: inside its bounding box
/// and set in its mask, when it has them.
pub open spec fn view_contains(v: RegionView, x: int, y: int) -> bool {
    match v.0 {
        None => true,
        Some(b) => b.spec_includes(x, y) && match v.1 {
            None => true,
            Some(m) => m[y * b.right + x] != 0,
        },
    }
}

/// Whether a point query at `(x, y)` reads inside the mask (a query at a
/// point of the bounding box with a negative coordinate would not).
pub open spec fn view_query_safe(v: RegionView, x: int, y: int) -> bool {
    match v.0 {
        Some(b) => b.spec_includes(x, y) ==> match v.1 {
            Some(m) => 0 <= x && 0 <= y && y * b.right + x < m.len(),
            None => true,
        },
        None => true,
    }
}

impl Default for Region {
    /// An empty region.
    fn default() -> (r: Self)
        ensures
            r.size == 0,
            r.bounding_box is None,
            r.data@.len() == 0,
            r.decoded_mask is None,
    {
        Region::new()
    }
}

impl Region {
    /// Whether the cached mask, when present, is the region's decoded mask.
    pub open spec fn wf(&self) -> bool {
        self.decoded_mask matches Some(m) ==> spec_mask(self.size, self.bounding_box, self.data@) == Some(m@)
    }

    /// Whether point queries can be answered: the mask is cached, or there
    /// is no toggle data to decode.
    pub open spec fn spec_is_prepared(&self) -> bool {
        self.decoded_mask is Some || self.data@.len() == 0
    }

    /// The cached mask, if any.
    pub open spec fn spec_decoded_mask(&self) -> Option<Seq<u8>> {
        match self.decoded_mask {
            Some(m) => Some(m@),
            None => None,
        }
    }

    /// Whether `(x, y)` lies in the region.
    pub open spec fn spec_contains(&self, x: int, y: int) -> bool {
        match self.bounding_box {
            None => true,
            Some(b) => b.spec_includes(x, y) && match self.spec_decoded_mask() {
                None => true,
                Some(m) => m[y * b.right + x] != 0,
            },
        }
    }

    /// Builds a region from its record, with no cached mask.
    pub fn from_parts(size: u16, bounding_box: Option<Rect>, data: Vec<i16>) -> (r: Self)
        ensures
            r.size == size,
            r.bounding_box == bounding_box,
            r.data@ == data@,
            r.decoded_mask is None,
            r.wf(),
    {
        Region { size, bounding_box, data, decoded_mask: None }
    }

    /// Creates an empty region.
    pub fn new() -> (r: Self)
        ensures
            r.size == 0,
            r.bounding_box is None,
            r.data@.len() == 0,
            r.decoded_mask is None,
            r.wf(),
    {
        Region { size: 0, bounding_box: None, data: Vec::new(), decoded_mask: None }
    }

    /// Whether the region's mask can be decoded (the decoder would not abort).
    pub open spec fn spec_mask_defined(&self) -> bool {
        spec_mask(self.size, self.bounding_box, self.data@) is Some
    }

    /// Prepares the decoded mask cache as `prepare` does, or reports with
    /// `false`, leaving the region as it was, that decoding the mask would
    /// abort.
    pub fn try_prepare(&mut self) -> (ok: bool)
        requires
            old(self).wf(),
        ensures
            ok == preparable(*old(self)),
            ok ==> final(self).wf() && final(self).spec_is_prepared() && region_view(*final(self)) == prepared_view(*old(self)),
            ok ==> final(self).size == old(self).size && final(self).bounding_box == old(self).bounding_box
                && final(self).data@ == old(self).data@,
            !ok ==> *final(self) == *old(self),
    {
        if self.is_prepared() {
            return true;
        }
        match self.try_as_mask() {
            Some(m) => {
                self.decoded_mask = Some(m);
                true
            },
            None => false,
        }
    }

    /// Prepares the decoded mask cache for point-in-region queries.
    pub fn prepare(&mut self)
        requires
            old(self).wf(),
            old(self).spec_is_prepared() || old(self).spec_mask_defined(),
        ensures
            final(self).wf(),
            final(self).spec_is_prepared(),
            final(self).size == old(self).size,
            final(self).bounding_box == old(self).bounding_box,
            final(self).data@ == old(self).data@,
            old(self).spec_is_prepared() ==> final(self).decoded_mask == old(self).decoded_mask,
            !old(self).spec_is_prepared() ==> final(self).spec_decoded_mask()
                == spec_mask(old(self).size, old(self).bounding_box, old(self).data@),
    {
        if self.is_prepared() {
            return;
        }
        let m = self.as_mask();
        self.decoded_mask = Some(m);
    }

    /// Whether point queries can be answered.
    pub fn is_prepared(&self) -> (b: bool)
        ensures
            b == self.spec_is_prepared(),
    {
        self.decoded_mask.is_some() || self.data.len() == 0
    }

    /// Returns `true` if the point is inside the prepared region mask.
    pub fn contains(&self, x: i32, y: i32) -> (b: bool)
        requires
            self.spec_is_prepared(),
            match self.bounding_box {
                Some(bb) => bb.spec_includes(x as int, y as int) ==> match self.spec_decoded_mask() {
                    Some(m) => 0 <= x && 0 <= y && y * bb.right + x < m.len(),
                    None => true,
                },
                None => true,
            },
        ensures
            b == self.spec_contains(x as int, y as int),
    {
        let b = match self.bounding_box.as_ref() {
            Some(b) => b,
            None => return true,
        };
        if !b.includes(x, y) {
            return false;
        }
        let r = match self.decoded_mask.as_ref() {
            Some(r) => r,
            None => return true,
        };
        let yy = y as usize;
        let rr = b.max_x() as usize;
        proof {
            assert(yy as int * rr as int == y as int * b.right as int) by (nonlinear_arith)
                requires yy as int == y as int, rr as int == b.right as int;
            assert(0 <= yy as int * rr as int) by (nonlinear_arith)
                requires yy >= 0, rr >= 0;
        }
        let rl = r.len();
        assert(yy * rr + x < r@.len());
        let idx = yy * rr + (x as usize);
        r[idx] != 0
    }

    /// Decodes the mask, or `None` where decoding would abort.
    pub fn try_as_mask(&self) -> (r: Option<Vec<u8>>)
        ensures
            match spec_mask(self.size, self.bounding_box, self.data@) {
                Some(m) => r matches Some(v) && v@ == m,
                None => r is None,
            },
    {
        if self.size % 2 != 0 {
            return None;
        }
        let rect = match self.bounding_box {
            Some(rect) => rect,
            None => return Some(Vec::new()),
        };
        if rect.right < 0 || rect.bottom < 0 {
            return None;
        }
        let width = rect.right as usize;
        let height = rect.bottom as usize;
        if self.data.len() == 0 {
            let rows = uniform_rows_exec(width, height, 1);
            assert(rows_view(rows@) == uniform_rows(width as int, height as int, 1));
            return Some(flatten_rows(&rows));
        }
        let mut image = uniform_rows_exec(width, height, 0);
        assert(rows_view(image@) == uniform_rows(width as int, height as int, 0));
        let mut scanline = filled_bytes(width, 0);
        let d = &self.data;
        let ghost ds = d@;
        let w = width as u64;
        let h = height as u64;
        let mut i: usize = 0;
        let mut last_row: u64 = 0;
        let mut inner = false;
        let mut row: u64 = 0;
        let ghost target = mask_outer(ds, 0, width as int, height as int, rows_view(image@), scanline@, 0);
        loop
            invariant
                d@ == ds,
                i <= ds.len(),
                image@.len() == height,
                scanline@.len() == width,
                w == width,
                h == height,
                width <= 0x7fff,
                height <= 0x7fff,
                forall|k: int| 0 <= k < height ==> (#[trigger] rows_view(image@)[k]).len() == width,
                self.data@ == ds,
                self.size % 2 == 0,
                self.bounding_box == Some(rect),
                width == rect.right,
                height == rect.bottom,
                ds.len() > 0,
                spec_mask(self.size, self.bounding_box, ds) == (match target {
                    Some(rows) => Some(rows.flatten()),
                    None => None,
                }),
                !inner ==> mask_outer(ds, i as int, w as int, h as int, rows_view(image@), scanline@, last_row as int) == target,
                inner ==> mask_inner(ds, i as int, w as int, h as int, rows_view(image@), scanline@, row as int) == target,
            ensures
                target == Some(rows_view(image@)),
            decreases ds.len() - i,
        {
            if i >= d.len() {
                break;
            }
            let t = d[i];
            if !inner {
                if t == 0x7fff {
                    if last_row < h {
                        fill_rows_exec(&mut image, &scanline, last_row, h);
                    }
                    return Some(flatten_rows(&image));
                }
                let rw = wrap_index(t);
                if w > 0 && last_row < rw && rw > h {
                    return None;
                }
                fill_rows_exec(&mut image, &scanline, last_row, rw);
                row = rw;
                inner = true;
                i += 1;
            } else {
                if t == 0x7fff {
                    if row < h {
                        let copy = copy_bytes(&scanline);
                        let ghost before = rows_view(image@);
                        image.set(row as usize, copy);
                        assert(rows_view(image@) == before.update(row as int, scanline@));
                    }
                    last_row = row;
                    inner = false;
                    i += 1;
                } else if row >= h {
                    i += 1;
                } else if i + 1 >= d.len() {
                    break;
                } else {
                    let s = wrap_index(t);
                    let e = wrap_index(d[i + 1]);
                    if e < s {
                        return None;
                    }
                    toggle_exec(&mut scanline, s, e);
                    i += 2;
                }
            }
        }
        Some(flatten_rows(&image))
    }

    fn as_mask(&self) -> (r: Vec<u8>)
        requires
            self.spec_mask_defined(),
        ensures
            spec_mask(self.size, self.bounding_box, self.data@) == Some(r@),
    {
        match self.try_as_mask() {
            Some(v) => v,
            None => Vec::new(),
        }
    }
}

} // verus!
