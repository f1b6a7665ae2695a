//! The wallpaper carousel: which image is selected, how the selection moves,
//! and which five images the thumbnail row shows.

use vstd::prelude::*;
use crate::paths::{path_extension, path_extension_of};
use crate::text::{
    same_text, ascii_lowercase, spec_ascii_lower, text_le, text_le_exec, lemma_text_le_total,
    lemma_text_le_trans,
};

verus! {

/// The index after `i` among `n` images, wrapping around.
pub open spec fn spec_next_index(i: int, n: int) -> int {
    (i + 1) % n
}

/// The index before `i` among `n` images, wrapping around.
pub open spec fn spec_prev_index(i: int, n: int) -> int {
    (i + n - 1) % n
}

/// The image shown in thumbnail slot `k` (0 to 4) when `selected` is the
/// selection among `count` images: the slots run from two before the
/// selection to two after it, wrapping around; the middle slot is the
/// selection itself.
pub open spec fn spec_visible_index(selected: int, count: int, k: int) -> int {
    let n = if count > 1 { count } else { 1 };
    let s = selected % n;
    (s + k - 2) % n
}

/// The carousel's state as plain values.
pub struct CarouselView {
    /// The paths of the images shown, in order: path `i` is the file of
    /// image `i`.
    pub paths: Seq<Seq<char>>,
    /// The selected image; 0 when there is none.
    pub selected: nat,
}

impl CarouselView {
    pub open spec fn wf(self) -> bool {
        &&& self.paths.len() == 0 ==> self.selected == 0
        &&& self.paths.len() > 0 ==> self.selected < self.paths.len()
    }

    /// The path of the selected image, if there is an image.
    pub open spec fn selected_path(self) -> Option<Seq<char>> {
        if self.paths.len() > 0 {
            Some(self.paths[self.selected as int])
        } else {
            None
        }
    }
}

/// The selection state of the carousel.
#[derive(Debug)]
pub struct Carousel {
    all_path: Vec<String>,
    selected: usize,
}

impl View for Carousel {
    type V = CarouselView;

    closed spec fn view(&self) -> CarouselView {
        CarouselView { paths: self.all_path.deep_view(), selected: self.selected as nat }
    }
}

/// `(i + 1) % n` without overflow.
fn next_index(i: usize, n: usize) -> (r: usize)
    requires
        i < n,
    ensures
        r == spec_next_index(i as int, n as int),
{
    if i + 1 == n {
        assert((n as int) % (n as int) == 0) by (nonlinear_arith)
            requires
                n > 0,
        ;
        0
    } else {
        assert((i + 1) % (n as int) == i + 1) by (nonlinear_arith)
            requires
                i + 1 < n,
        ;
        i + 1
    }
}

/// `(i + n - 1) % n` without overflow.
fn prev_index(i: usize, n: usize) -> (r: usize)
    requires
        i < n,
    ensures
        r == spec_prev_index(i as int, n as int),
{
    if i == 0 {
        assert((0 + n - 1) % (n as int) == n - 1) by (nonlinear_arith)
            requires
                n > 0,
        ;
        n - 1
    } else {
        assert((i + n - 1) % (n as int) == i - 1) by (nonlinear_arith)
            requires
                0 < i < n,
        ;
        i - 1
    }
}

impl Carousel {
    #[verifier::type_invariant]
    closed spec fn inv(self) -> bool {
        self@.wf()
    }

    /// A carousel over the images at `paths`, one path per image shown; the
    /// first image is selected.
    pub fn new(paths: Vec<String>) -> (r: Carousel)
        ensures
            r@ == (CarouselView { paths: paths.deep_view(), selected: 0 }),
    {
        Carousel { all_path: paths, selected: 0 }
    }

    /// How many images there are.
    pub fn len(&self) -> (r: usize)
        ensures
            r == self@.paths.len(),
    {
        self.all_path.len()
    }

    /// The selected index.
    pub fn selected(&self) -> (r: usize)
        ensures
            r == self@.selected,
            self@.wf(),
    {
        proof {
            use_type_invariant(self);
        }
        self.selected
    }

    /// The path of the selected image, if there is an image.
    pub fn selected_path(&self) -> (r: Option<&String>)
        ensures
            match r {
                Some(p) => self@.selected_path() == Some(p@),
                None => self@.selected_path() is None,
            },
    {
        proof {
            use_type_invariant(self);
        }
        if self.all_path.len() > 0 {
            Some(&self.all_path[self.selected])
        } else {
            None
        }
    }

    /// The paths of all images.
    pub fn paths(&self) -> (r: &Vec<String>)
        ensures
            r.deep_view() == self@.paths,
    {
        &self.all_path
    }

    /// Selects the previous image, wrapping around; nothing changes without
    /// images.
    pub fn prev(&mut self)
        ensures
            old(self)@.paths.len() == 0 ==> final(self)@ == old(self)@,
            old(self)@.paths.len() > 0 ==> final(self)@ == (CarouselView {
                selected: spec_prev_index(
                    old(self)@.selected as int,
                    old(self)@.paths.len() as int,
                ) as nat,
                ..old(self)@
            }),
            final(self)@.wf(),
    {
        proof {
            use_type_invariant(&*self);
        }
        let n = self.all_path.len();
        if n == 0 {
            return;
        }
        self.selected = prev_index(self.selected, n);
        proof {
            use_type_invariant(&*self);
        }
    }

    /// Selects the next image, wrapping around; nothing changes without
    /// images.
    pub fn next(&mut self)
        ensures
            old(self)@.paths.len() == 0 ==> final(self)@ == old(self)@,
            old(self)@.paths.len() > 0 ==> final(self)@ == (CarouselView {
                selected: spec_next_index(
                    old(self)@.selected as int,
                    old(self)@.paths.len() as int,
                ) as nat,
                ..old(self)@
            }),
            final(self)@.wf(),
    {
        proof {
            use_type_invariant(&*self);
        }
        let n = self.all_path.len();
        if n == 0 {
            return;
        }
        self.selected = next_index(self.selected, n);
        proof {
            use_type_invariant(&*self);
        }
    }

    /// The images of the five thumbnail slots, from two before the selection
    /// to two after it.
    pub fn visible_indices(&self) -> (r: [usize; 5])
        ensures
            forall|k: int|
                0 <= k < 5 ==> r[k] == spec_visible_index(
                    self@.selected as int,
                    self@.paths.len() as int,
                    k,
                ),
    {
        proof {
            use_type_invariant(self);
        }
        let count = self.all_path.len();
        let n: usize = if count > 1 { count } else { 1 };
        let s: usize = self.selected % n;
        let c1 = prev_index(s, n);
        let c0 = prev_index(c1, n);
        let c3 = next_index(s, n);
        let c4 = next_index(c3, n);
        proof {
            let ni = n as int;
            let si = s as int;
            assert(0 <= si < ni);
            assert((si - 2) % ni == ((si + ni - 1) % ni + ni - 1) % ni) by (nonlinear_arith)
                requires 0 <= si < ni;
            assert((si - 1) % ni == (si + ni - 1) % ni) by (nonlinear_arith)
                requires 0 <= si < ni;
            assert(si % ni == si) by (nonlinear_arith)
                requires 0 <= si < ni;
            assert((si + 2) % ni == ((si + 1) % ni + 1) % ni) by (nonlinear_arith)
                requires 0 <= si < ni;
        }
        let r = [c0, c1, s, c3, c4];
        assert(r[2] == spec_visible_index(self@.selected as int, count as int, 2));
        r
    }
}

/// The selection after `k` steps forward from `i` among `n` images.
pub open spec fn spec_advance(i: int, n: int, k: nat) -> int
    decreases k,
{
    if k == 0 {
        i
    } else {
        spec_next_index(spec_advance(i, n, (k - 1) as nat), n)
    }
}

/// Stepping back undoes stepping forward, and stepping forward undoes
/// stepping back.
pub proof fn lemma_prev_undoes_next(i: int, n: int)
    requires
        0 <= i < n,
    ensures
        spec_prev_index(spec_next_index(i, n), n) == i,
        spec_next_index(spec_prev_index(i, n), n) == i,
        0 <= spec_next_index(i, n) < n,
        0 <= spec_prev_index(i, n) < n,
{
    if i + 1 < n {
        assert((i + 1) % n == i + 1) by (nonlinear_arith)
            requires
                0 <= i + 1 < n,
        ;
        assert((i + 1 + n - 1) % n == i) by (nonlinear_arith)
            requires
                0 <= i < n,
        ;
    } else {
        assert((i + 1) % n == 0) by (nonlinear_arith)
            requires
                i + 1 == n,
                n > 0,
        ;
        assert((0 + n - 1) % n == n - 1) by (nonlinear_arith)
            requires
                n > 0,
        ;
    }
    if i > 0 {
        assert((i + n - 1) % n == i - 1) by (nonlinear_arith)
            requires
                0 < i < n,
        ;
        assert((i - 1 + 1) % n == i) by (nonlinear_arith)
            requires
                0 <= i < n,
        ;
    } else {
        assert((i + n - 1) % n == n - 1) by (nonlinear_arith)
            requires
                i == 0,
                n > 0,
        ;
        assert((n - 1 + 1) % n == 0) by (nonlinear_arith)
            requires
                n > 0,
        ;
    }
}

/// `k` steps forward from `i` land on `(i + k) % n`.
pub proof fn lemma_advance(i: int, n: int, k: nat)
    requires
        0 <= i < n,
    ensures
        spec_advance(i, n, k) == (i + k) % n,
    decreases k,
{
    if k == 0 {
        assert(i % n == i) by (nonlinear_arith)
            requires
                0 <= i < n,
        ;
    } else {
        lemma_advance(i, n, (k - 1) as nat);
        let j = (i + k - 1) % n;
        assert(0 <= j < n) by (nonlinear_arith)
            requires
                n > 0,
                j == (i + k - 1) % n,
        ;
        assert((j + 1) % n == (i + k) % n) by (nonlinear_arith)
            requires
                n > 0,
                j == (i + k - 1) % n,
        ;
    }
}

/// Stepping forward once per image comes back to where it started.
pub proof fn lemma_full_cycle(i: int, n: int)
    requires
        0 <= i < n,
    ensures
        spec_advance(i, n, n as nat) == i,
{
    lemma_advance(i, n, n as nat);
    assert((i + n) % n == i) by (nonlinear_arith)
        requires
            0 <= i < n,
    ;
}

/// The middle thumbnail is the selection; every slot names a loaded image
/// (or image 0 when none was loaded); each slot holds the image after the
/// one in the slot before it.
pub proof fn lemma_visible_window(selected: int, count: int)
    requires
        0 <= selected,
        0 <= count,
        count > 0 ==> selected < count,
        count == 0 ==> selected == 0,
    ensures
        spec_visible_index(selected, count, 2) == selected,
        forall|k: int|
            0 <= k < 5 ==> 0 <= #[trigger] spec_visible_index(selected, count, k) < (if count > 1 {
                count
            } else {
                1
            }),
        forall|k: int|
            0 <= k < 4 ==> #[trigger] spec_visible_index(selected, count, k + 1) == spec_next_index(
                spec_visible_index(selected, count, k),
                if count > 1 {
                    count
                } else {
                    1
                },
            ),
{
    let n = if count > 1 {
        count
    } else {
        1
    };
    let s = selected % n;
    assert(s == selected) by (nonlinear_arith)
        requires
            n > 0,
            s == selected % n,
            0 <= selected,
            selected < n,
    ;
    assert forall|k: int| 0 <= k < 5 implies 0 <= #[trigger] spec_visible_index(selected, count, k) < n by {
        assert(0 <= (s + k - 2) % n < n) by (nonlinear_arith)
            requires
                n > 0,
        ;
    }
    assert forall|k: int| 0 <= k < 4 implies #[trigger] spec_visible_index(selected, count, k + 1)
        == spec_next_index(spec_visible_index(selected, count, k), n) by {
        assert((s + k + 1 - 2) % n == ((s + k - 2) % n + 1) % n) by (nonlinear_arith)
            requires
                n > 0,
        ;
    }
}

/// The file extensions of images, in lower case.
pub open spec fn is_image_ext(e: Seq<char>) -> bool {
    ||| e == "png"@
    ||| e == "jpg"@
    ||| e == "jpeg"@
    ||| e == "webp"@
    ||| e == "bmp"@
}

/// The path has an image extension, in any ASCII case.
pub open spec fn spec_is_image(path: Seq<char>) -> bool {
    path_extension_of(path) matches Some(e) && is_image_ext(spec_ascii_lower(e))
}

/// Whether a file extension is png, jpg, jpeg, webp or bmp, in any ASCII
/// case.
pub fn has_image_extension(ext: &str) -> (r: bool)
    ensures
        r == is_image_ext(spec_ascii_lower(ext@)),
{
    let lower = ascii_lowercase(ext);
    let l = lower.as_str();
    same_text(l, "png") || same_text(l, "jpg") || same_text(l, "jpeg") || same_text(l, "webp")
        || same_text(l, "bmp")
}

/// Whether the path's extension is png, jpg, jpeg, webp or bmp, in any
/// ASCII case.
pub fn is_image(path: &str) -> (r: bool)
    ensures
        r == spec_is_image(path@),
{
    match path_extension(path) {
        Some(e) => has_image_extension(&e),
        None => false,
    }
}

/// The image files among directory entries (path, whether it is a regular
/// file), in the order the entries come.
pub open spec fn spec_image_files(entries: Seq<(String, bool)>) -> Seq<Seq<char>>
    decreases entries.len(),
{
    if entries.len() == 0 {
        seq![]
    } else {
        let rest = spec_image_files(entries.drop_last());
        let e = entries.last();
        if e.1 && spec_is_image(e.0@) {
            rest.push(e.0@)
        } else {
            rest
        }
    }
}

/// The image files are exactly the entries that are regular files with an
/// image extension: each listed path is such an entry's, and each such
/// entry's path is listed.
pub proof fn lemma_image_files_members(entries: Seq<(String, bool)>)
    ensures
        forall|x: Seq<char>|
            spec_image_files(entries).contains(x) <==> exists|k: int|
                0 <= k < entries.len() && #[trigger] entries[k].0@ == x && entries[k].1
                    && spec_is_image(entries[k].0@),
    decreases entries.len(),
{
    if entries.len() > 0 {
        let init = entries.drop_last();
        lemma_image_files_members(init);
        let rest = spec_image_files(init);
        let e = entries.last();
        assert forall|x: Seq<char>|
            spec_image_files(entries).contains(x) <==> exists|k: int|
                0 <= k < entries.len() && #[trigger] entries[k].0@ == x && entries[k].1
                    && spec_is_image(entries[k].0@) by {
            if spec_image_files(entries).contains(x) {
                if rest.contains(x) {
                    let k = choose|k: int|
                        0 <= k < init.len() && #[trigger] init[k].0@ == x && init[k].1
                            && spec_is_image(init[k].0@);
                    assert(entries[k] == init[k]);
                } else {
                    assert(e.1 && spec_is_image(e.0@));
                    let ls = rest.push(e.0@);
                    let j = choose|j: int| 0 <= j < ls.len() && ls[j] == x;
                    assert(j == rest.len());
                    assert(entries[entries.len() - 1].0@ == x);
                }
            }
            if exists|k: int|
                0 <= k < entries.len() && #[trigger] entries[k].0@ == x && entries[k].1
                    && spec_is_image(entries[k].0@) {
                let k = choose|k: int|
                    0 <= k < entries.len() && #[trigger] entries[k].0@ == x && entries[k].1
                        && spec_is_image(entries[k].0@);
                if k < entries.len() - 1 {
                    assert(init[k] == entries[k]);
                    assert(rest.contains(x));
                    if e.1 && spec_is_image(e.0@) {
                        assert(rest.push(e.0@)[rest.index_of(x)] == x);
                    }
                } else {
                    assert(spec_image_files(entries) == rest.push(e.0@));
                    assert(rest.push(e.0@)[rest.len() as int] == x);
                }
            }
        }
    }
}

/// The texts are in character order.
pub open spec fn sorted_texts(s: Seq<Seq<char>>) -> bool {
    forall|i: int, j: int| 0 <= i < j < s.len() ==> text_le(#[trigger] s[i], #[trigger] s[j])
}

/// Inserts `x` into the sorted list after every element that is not later.
fn insert_sorted(out: &mut Vec<String>, x: String)
    requires
        sorted_texts(old(out).deep_view()),
    ensures
        sorted_texts(final(out).deep_view()),
        final(out).deep_view().to_multiset() == old(out).deep_view().to_multiset().insert(x@),
{
    let ghost s = out.deep_view();
    let n = out.len();
    let mut k: usize = 0;
    while k < n && text_le_exec(out[k].as_str(), x.as_str())
        invariant
            n == out.len(),
            k <= n,
            out.deep_view() == s,
            forall|i: int| 0 <= i < k ==> text_le(#[trigger] s[i], x@),
        decreases n - k,
    {
        k = k + 1;
    }
    proof {
        if k < n {
            lemma_text_le_total(s[k as int], x@);
            assert forall|j: int| k <= j < n implies text_le(x@, #[trigger] s[j]) by {
                if j > k {
                    assert(text_le(s[k as int], s[j]));
                    lemma_text_le_trans(x@, s[k as int], s[j]);
                }
            }
        }
    }
    let ghost xv = x@;
    out.insert(k, x);
    proof {
        let t = out.deep_view();
        assert(t =~= s.insert(k as int, xv));
        assert forall|i: int, j: int| 0 <= i < j < t.len() implies text_le(#[trigger] t[i], #[trigger] t[j]) by {
            if j < k {
                assert(t[i] == s[i] && t[j] == s[j]);
            } else if j == k {
                assert(t[i] == s[i]);
            } else if i == k {
                assert(t[j] == s[j - 1]);
            } else if i < k {
                assert(t[i] == s[i] && t[j] == s[j - 1]);
                if k < n {
                    assert(text_le(s[i], xv));
                    assert(text_le(xv, s[k as int]));
                }
                assert(text_le(s[i], s[j - 1]));
            } else {
                assert(t[i] == s[i - 1] && t[j] == s[j - 1]);
            }
        }
        vstd::seq_lib::to_multiset_insert(s, k as int, xv);
    }
}

/// The image files among directory entries (path as text, whether it is a
/// regular file), sorted by path.
pub fn select_images(entries: &Vec<(String, bool)>) -> (r: Vec<String>)
    ensures
        sorted_texts(r.deep_view()),
        r.deep_view().to_multiset() == spec_image_files(entries@).to_multiset(),
{
    let mut out: Vec<String> = Vec::new();
    let n = entries.len();
    let mut idx: usize = 0;
    assert(entries@.take(0) =~= Seq::<(String, bool)>::empty());
    assert(out.deep_view() =~= spec_image_files(entries@.take(0)));
    while idx < n
        invariant
            n == entries@.len(),
            idx <= n,
            sorted_texts(out.deep_view()),
            out.deep_view().to_multiset() == spec_image_files(entries@.take(idx as int)).to_multiset(),
        decreases n - idx,
    {
        let entry = &entries[idx];
        assert(entries@.take(idx + 1).drop_last() =~= entries@.take(idx as int));
        assert(entries@.take(idx + 1).last() == entries@[idx as int]);
        if entry.1 && is_image(entry.0.as_str()) {
            let ghost before = spec_image_files(entries@.take(idx as int));
            insert_sorted(&mut out, entry.0.clone());
            proof {
                vstd::seq_lib::to_multiset_build(before, entry.0@);
            }
        }
        idx = idx + 1;
    }
    assert(entries@.take(n as int) =~= entries@);
    out
}

} // verus!
