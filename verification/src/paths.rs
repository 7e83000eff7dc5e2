use std::path::Path;
use vstd::prelude::*;

use crate::text::string_views;

verus! {

/// What `std::path::Path::file_stem` gives for a path, as text.
pub uninterp spec fn path_file_stem(path: Seq<char>) -> Option<Seq<char>>;

/// What `std::path::Path::parent` gives for a path, as text.
pub uninterp spec fn path_parent(path: Seq<char>) -> Option<Seq<char>>;

/// What `std::path::Path::strip_prefix` gives for a path and a base, as text
/// (`None` where it fails).
pub uninterp spec fn path_strip_prefix(path: Seq<char>, base: Seq<char>) -> Option<Seq<char>>;

/// What `std::path::Path::join` gives for a base and a path, as text.
pub uninterp spec fn path_join(base: Seq<char>, path: Seq<char>) -> Seq<char>;

/// What `std::path::Path::extension` gives for a path, as text.
pub uninterp spec fn path_extension(path: Seq<char>) -> Option<Seq<char>>;

/// How `Ord::cmp` on `std::path::Path` orders two paths: -1, 0 or 1 for
/// less, equal and greater. Paths are compared component by component, and
/// compare equal exactly where they are equal as paths.
pub uninterp spec fn path_order(a: Seq<char>, b: Seq<char>) -> int;

/// What `str::to_lowercase` gives for a text.
pub uninterp spec fn text_to_lowercase(text: Seq<char>) -> Seq<char>;

/// Calls `Path::file_stem`. The contract claims that its result, read as
/// text, is `path_file_stem` of the path: the stem of a path that is text is
/// always text, so no stem is lost in the reading.
#[verifier::external_body]
pub(crate) fn file_stem(path: &str) -> (r: Option<String>)
    ensures
        r matches Some(s) ==> path_file_stem(path@) == Some(s@),
        r is None ==> path_file_stem(path@) is None,
{
    match Path::new(path).file_stem() {
        Some(stem) => stem.to_str().map(String::from),
        None => None,
    }
}

/// Calls `Path::parent`. The contract claims that its result, read as text,
/// is `path_parent` of the path.
#[verifier::external_body]
pub(crate) fn parent(path: &str) -> (r: Option<String>)
    ensures
        r matches Some(s) ==> path_parent(path@) == Some(s@),
        r is None ==> path_parent(path@) is None,
{
    match Path::new(path).parent() {
        Some(dir) => dir.to_str().map(String::from),
        None => None,
    }
}

/// Calls `Path::strip_prefix`. The contract claims that its result, read as
/// text, is `path_strip_prefix` of the path and the base, and that a failure
/// of the call is `None`.
#[verifier::external_body]
pub(crate) fn strip_prefix(path: &str, base: &str) -> (r: Option<String>)
    ensures
        r matches Some(s) ==> path_strip_prefix(path@, base@) == Some(s@),
        r is None ==> path_strip_prefix(path@, base@) is None,
{
    match Path::new(path).strip_prefix(base) {
        Ok(rest) => rest.to_str().map(String::from),
        Err(_) => None,
    }
}

/// Calls `Path::join`. The contract claims that its result, read as text,
/// is `path_join` of the two arguments: joining two texts gives text.
#[verifier::external_body]
pub(crate) fn join(base: &str, path: &str) -> (r: String)
    ensures
        r@ == path_join(base@, path@),
{
    Path::new(base).join(path).to_string_lossy().into_owned()
}

/// Calls `Path::extension`. The contract claims that its result, read as
/// text, is `path_extension` of the path.
#[verifier::external_body]
pub(crate) fn extension(path: &str) -> (r: Option<String>)
    ensures
        r matches Some(s) ==> path_extension(path@) == Some(s@),
        r is None ==> path_extension(path@) is None,
{
    match Path::new(path).extension() {
        Some(ext) => ext.to_str().map(String::from),
        None => None,
    }
}

/// Calls `str::to_lowercase`. The contract claims that its result is
/// `text_to_lowercase` of the text; what the Unicode lowercase mapping is
/// on given characters is left unsaid.
#[verifier::external_body]
pub(crate) fn to_lowercase(text: &str) -> (r: String)
    ensures
        r@ == text_to_lowercase(text@),
{
    text.to_lowercase()
}

/// Calls `Ord::cmp` on two paths. The contract claims what the `Ord` and
/// `Eq` documentation requires of every implementation: the result is
/// -1, 0 or 1; comparing the other way round gives the opposite result;
/// paths that compare equal compare alike with every path; and the order is
/// transitive: what comes after the second path of a lesser pair comes
/// after the first too.
#[verifier::external_body]
pub(crate) fn compare_paths(a: &str, b: &str) -> (r: i8)
    ensures
        r == path_order(a@, b@),
        -1 <= r <= 1,
        path_order(b@, a@) == -r,
        r == 0 ==> path_equivalent(a@, b@),
        r == -1 ==> forall|c: Seq<char>| #[trigger] path_order(b@, c) == -1 ==> path_order(a@, c) == -1,
{
    match Path::new(a).cmp(Path::new(b)) {
        std::cmp::Ordering::Less => -1,
        std::cmp::Ordering::Equal => 0,
        std::cmp::Ordering::Greater => 1,
    }
}

/// Paths that compare alike with every path.
pub open spec fn path_equivalent(a: Seq<char>, b: Seq<char>) -> bool {
    forall|c: Seq<char>| #[trigger] path_order(a, c) == path_order(b, c)
}

/// Each path comes before every later one in path order.
pub open spec fn ascending(s: Seq<Seq<char>>) -> bool {
    forall|i: int, j: int| 0 <= i < j < s.len() ==> #[trigger] path_order(s[i], s[j]) == -1
}

/// No two paths compare equal.
pub open spec fn no_equal_paths(s: Seq<Seq<char>>) -> bool {
    forall|i: int, j: int|
        0 <= i < s.len() && 0 <= j < s.len() && i != j ==> #[trigger] path_order(s[i], s[j]) != 0
}

/// The path is kept, itself or as a path equal to it.
pub open spec fn kept_or_equivalent(kept: Seq<Seq<char>>, p: Seq<char>) -> bool {
    exists|i: int| 0 <= i < kept.len() && (#[trigger] kept[i] == p || path_equivalent(p, kept[i]))
}

/// Every input path is kept, itself or as a path equal to it.
pub open spec fn keeps_every_path(kept: Seq<Seq<char>>, input: Seq<Seq<char>>) -> bool {
    forall|m: int| 0 <= m < input.len() ==> #[trigger] kept_or_equivalent(kept, input[m])
}

/// Each kept path is an input path that no earlier input path equals.
pub open spec fn first_occurrences(kept: Seq<Seq<char>>, input: Seq<Seq<char>>) -> bool {
    forall|i: int|
        0 <= i < kept.len() ==> exists|k: int|
            0 <= k < input.len() && input[k] == #[trigger] kept[i] && forall|m: int|
                0 <= m < k ==> path_order(input[m], input[k]) != 0
}

/// Each kept path is one of the first `k` input paths.
pub open spec fn drawn_from(kept: Seq<Seq<char>>, input: Seq<Seq<char>>, k: int) -> bool {
    forall|i: int| 0 <= i < kept.len() ==> exists|kk: int| 0 <= kk < k && input[kk] == #[trigger] kept[i]
}

/// Where a path goes among paths in ascending order: `None` where one of
/// them equals it, else the index of the first path after it.
fn find_slot(kept: &Vec<String>, x: &str) -> (r: Option<usize>)
    ensures
        r is None ==> exists|i: int|
            0 <= i < kept@.len() && path_equivalent(x@, #[trigger] kept@[i]@),
        r matches Some(pos) ==> {
            &&& pos <= kept@.len()
            &&& forall|j: int|
                0 <= j < kept@.len() ==> path_order(x@, #[trigger] kept@[j]@) != 0 && path_order(
                    kept@[j]@,
                    x@,
                ) == -path_order(x@, kept@[j]@)
            &&& forall|j: int| 0 <= j < pos ==> path_order(x@, #[trigger] kept@[j]@) == 1
            &&& pos < kept@.len() ==> path_order(x@, kept@[pos as int]@) == -1
            &&& pos < kept@.len() ==> forall|c: Seq<char>|
                #[trigger] path_order(kept@[pos as int]@, c) == -1 ==> path_order(x@, c) == -1
        },
{
    let n = kept.len();
    let mut pos: usize = n;
    let mut i: usize = 0;
    while i < n
        invariant
            n == kept@.len(),
            i <= n,
            pos == n || pos < i,
            forall|j: int|
                0 <= j < i ==> path_order(x@, #[trigger] kept@[j]@) != 0 && path_order(
                    kept@[j]@,
                    x@,
                ) == -path_order(x@, kept@[j]@),
            forall|j: int| 0 <= j < i && j < pos ==> path_order(x@, #[trigger] kept@[j]@) == 1,
            pos < n ==> path_order(x@, kept@[pos as int]@) == -1,
            pos < n ==> forall|c: Seq<char>|
                #[trigger] path_order(kept@[pos as int]@, c) == -1 ==> path_order(x@, c) == -1,
        decreases n - i,
    {
        let c = compare_paths(x, kept[i].as_str());
        if c == 0 {
            return None;
        }
        if c < 0 && pos == n {
            pos = i;
        }
        i = i + 1;
    }
    Some(pos)
}

proof fn lemma_insert_in_order(before: Seq<Seq<char>>, pos: int, x: Seq<char>)
    requires
        0 <= pos <= before.len(),
        ascending(before),
        no_equal_paths(before),
        forall|j: int|
            0 <= j < before.len() ==> path_order(x, #[trigger] before[j]) != 0 && path_order(
                before[j],
                x,
            ) == -path_order(x, before[j]),
        forall|j: int| 0 <= j < pos ==> path_order(x, #[trigger] before[j]) == 1,
        pos < before.len() ==> path_order(x, before[pos]) == -1,
        pos < before.len() ==> forall|c: Seq<char>|
            #[trigger] path_order(before[pos], c) == -1 ==> path_order(x, c) == -1,
    ensures
        ascending(before.insert(pos, x)),
        no_equal_paths(before.insert(pos, x)),
{
    let after = before.insert(pos, x);
    assert forall|i: int, j: int| 0 <= i < j < after.len() implies #[trigger] path_order(
        after[i],
        after[j],
    ) == -1 by {
        if j < pos {
            assert(after[i] == before[i] && after[j] == before[j]);
        } else if j == pos {
            assert(after[i] == before[i] && after[j] == x);
            assert(path_order(x, before[i]) == 1);
        } else if i == pos {
            assert(after[i] == x && after[j] == before[j - 1]);
            if j - 1 > pos {
                assert(path_order(before[pos], before[j - 1]) == -1);
            }
        } else if i < pos {
            assert(after[i] == before[i] && after[j] == before[j - 1]);
        } else {
            assert(after[i] == before[i - 1] && after[j] == before[j - 1]);
        }
    }
    assert forall|i: int, j: int|
        0 <= i < after.len() && 0 <= j < after.len() && i != j implies #[trigger] path_order(
        after[i],
        after[j],
    ) != 0 by {
        let bi = if i < pos { i } else { i - 1 };
        let bj = if j < pos { j } else { j - 1 };
        if i == pos {
            assert(after[j] == before[bj]);
            assert(path_order(x, before[bj]) != 0);
        } else if j == pos {
            assert(after[i] == before[bi]);
            assert(path_order(x, before[bi]) != 0);
        } else {
            assert(after[i] == before[bi] && after[j] == before[bj]);
            assert(path_order(before[bi], before[bj]) != 0);
        }
    }
}

proof fn lemma_insert_keeps_firsts(
    before: Seq<Seq<char>>,
    input: Seq<Seq<char>>,
    k: int,
    pos: int,
)
    requires
        0 <= k < input.len(),
        0 <= pos <= before.len(),
        keeps_every_path(before, input.take(k)),
        first_occurrences(before, input),
        drawn_from(before, input, k),
        forall|j: int|
            0 <= j < before.len() ==> path_order(input[k], #[trigger] before[j]) != 0 && path_order(
                before[j],
                input[k],
            ) == -path_order(input[k], before[j]),
    ensures
        keeps_every_path(before.insert(pos, input[k]), input.take(k + 1)),
        first_occurrences(before.insert(pos, input[k]), input),
        drawn_from(before.insert(pos, input[k]), input, k + 1),
{
    let x = input[k];
    let after = before.insert(pos, x);
    assert forall|m: int| 0 <= m < k + 1 implies #[trigger] kept_or_equivalent(
        after,
        input.take(k + 1)[m],
    ) by {
        if m == k {
            assert(after[pos] == input.take(k + 1)[m]);
        } else {
            assert(input.take(k + 1)[m] == input.take(k)[m]);
            assert(kept_or_equivalent(before, input.take(k)[m]));
            let i = choose|i: int|
                0 <= i < before.len() && (#[trigger] before[i] == input.take(k)[m] || path_equivalent(
                    input.take(k)[m],
                    before[i],
                ));
            let ai = if i < pos { i } else { i + 1 };
            assert(after[ai] == before[i]);
        }
    }
    assert forall|m: int| 0 <= m < k implies path_order(input[m], input[k]) != 0 by {
        assert(input.take(k)[m] == input[m]);
        assert(kept_or_equivalent(before, input.take(k)[m]));
        let i = choose|i: int|
            0 <= i < before.len() && (#[trigger] before[i] == input.take(k)[m] || path_equivalent(
                input.take(k)[m],
                before[i],
            ));
        assert(path_order(x, before[i]) != 0);
        if before[i] != input[m] {
            assert(path_order(input[m], x) == path_order(before[i], x));
        }
    }
    assert forall|i: int| 0 <= i < after.len() implies exists|kk: int|
        0 <= kk < input.len() && input[kk] == #[trigger] after[i] && forall|m: int|
            0 <= m < kk ==> path_order(input[m], input[kk]) != 0 by {
        if i == pos {
            assert(input[k] == after[i]);
        } else {
            let bi = if i < pos { i } else { i - 1 };
            assert(after[i] == before[bi]);
        }
    }
    assert forall|i: int| 0 <= i < after.len() implies exists|kk: int|
        0 <= kk < k + 1 && input[kk] == #[trigger] after[i] by {
        if i == pos {
            assert(input[k] == after[i]);
        } else {
            let bi = if i < pos { i } else { i - 1 };
            assert(after[i] == before[bi]);
        }
    }
}

/// The paths without repeats and in path order: of paths that are equal as
/// paths, the first is kept.
pub fn unique_in_path_order(paths: &Vec<String>) -> (r: Vec<String>)
    ensures
        ascending(string_views(r@)),
        no_equal_paths(string_views(r@)),
        keeps_every_path(string_views(r@), string_views(paths@)),
        first_occurrences(string_views(r@), string_views(paths@)),
{
    let ghost input = string_views(paths@);
    let mut kept: Vec<String> = Vec::new();
    let mut k: usize = 0;
    while k < paths.len()
        invariant
            k <= paths@.len(),
            input == string_views(paths@),
            ascending(string_views(kept@)),
            no_equal_paths(string_views(kept@)),
            keeps_every_path(string_views(kept@), input.take(k as int)),
            first_occurrences(string_views(kept@), input),
            drawn_from(string_views(kept@), input, k as int),
        decreases paths@.len() - k,
    {
        let ghost before = string_views(kept@);
        let x = &paths[k];
        match find_slot(&kept, x.as_str()) {
            None => {
                proof {
                    let i = choose|i: int|
                        0 <= i < kept@.len() && path_equivalent(x@, #[trigger] kept@[i]@);
                    assert(before[i] == kept@[i]@);
                    assert(kept_or_equivalent(before, x@));
                    assert forall|m: int| 0 <= m < k + 1 implies #[trigger] kept_or_equivalent(
                        before,
                        input.take(k + 1)[m],
                    ) by {
                        if m < k {
                            assert(input.take(k + 1)[m] == input.take(k as int)[m]);
                        } else {
                            assert(input.take(k + 1)[m] == x@);
                        }
                    }
                }
            },
            Some(pos) => {
                assert(pos < before.len() ==> before[pos as int] == kept@[pos as int]@);
                kept.insert(pos, x.clone());
                let ghost after = string_views(kept@);
                assert(after =~= before.insert(pos as int, x@));
                proof {
                    lemma_insert_in_order(before, pos as int, x@);
                    lemma_insert_keeps_firsts(before, input, k as int, pos as int);
                }
            },
        }
        k = k + 1;
    }
    assert(input.take(paths@.len() as int) =~= input);
    kept
}

/// Deduplicating two lists of paths together keeps, up to path equality,
/// exactly the paths kept from each list alone: every path kept from either
/// list is kept from both together, and every path kept from both together
/// is kept from one of them. (`r`, `ra` and `rb` stand for what
/// `unique_in_path_order` returns for `a + b`, `a` and `b`.)
pub proof fn lemma_unique_of_concatenation(
    a: Seq<Seq<char>>,
    b: Seq<Seq<char>>,
    r: Seq<Seq<char>>,
    ra: Seq<Seq<char>>,
    rb: Seq<Seq<char>>,
)
    requires
        keeps_every_path(r, a + b),
        first_occurrences(r, a + b),
        keeps_every_path(ra, a),
        first_occurrences(ra, a),
        keeps_every_path(rb, b),
        first_occurrences(rb, b),
    ensures
        forall|i: int| 0 <= i < ra.len() ==> kept_or_equivalent(r, #[trigger] ra[i]),
        forall|i: int| 0 <= i < rb.len() ==> kept_or_equivalent(r, #[trigger] rb[i]),
        forall|i: int|
            0 <= i < r.len() ==> kept_or_equivalent(ra, #[trigger] r[i]) || kept_or_equivalent(
                rb,
                r[i],
            ),
{
    assert forall|i: int| 0 <= i < ra.len() implies kept_or_equivalent(r, #[trigger] ra[i]) by {
        let k = choose|k: int|
            0 <= k < a.len() && a[k] == #[trigger] ra[i] && forall|m: int|
                0 <= m < k ==> path_order(a[m], a[k]) != 0;
        assert((a + b)[k] == a[k]);
        assert(kept_or_equivalent(r, (a + b)[k]));
    }
    assert forall|i: int| 0 <= i < rb.len() implies kept_or_equivalent(r, #[trigger] rb[i]) by {
        let k = choose|k: int|
            0 <= k < b.len() && b[k] == #[trigger] rb[i] && forall|m: int|
                0 <= m < k ==> path_order(b[m], b[k]) != 0;
        assert((a + b)[a.len() + k] == b[k]);
        assert(kept_or_equivalent(r, (a + b)[a.len() + k]));
    }
    assert forall|i: int| 0 <= i < r.len() implies kept_or_equivalent(ra, #[trigger] r[i])
        || kept_or_equivalent(rb, r[i]) by {
        let k = choose|k: int|
            0 <= k < (a + b).len() && (a + b)[k] == #[trigger] r[i] && forall|m: int|
                0 <= m < k ==> path_order((a + b)[m], (a + b)[k]) != 0;
        if k < a.len() {
            assert(a[k] == r[i]);
            assert(kept_or_equivalent(ra, a[k]));
        } else {
            assert(b[k - a.len()] == r[i]);
            assert(kept_or_equivalent(rb, b[k - a.len()]));
        }
    }
}

/// Reordering or repeating the input paths does not change which paths
/// are kept, up to path equality: where two lists hold the same paths, each
/// path kept from one is kept from the other. (`ra` and `rb` stand for what
/// `unique_in_path_order` returns for `a` and `b`.)
pub proof fn lemma_unique_same_paths(
    a: Seq<Seq<char>>,
    b: Seq<Seq<char>>,
    ra: Seq<Seq<char>>,
    rb: Seq<Seq<char>>,
)
    requires
        forall|i: int| 0 <= i < a.len() ==> b.contains(#[trigger] a[i]),
        forall|i: int| 0 <= i < b.len() ==> a.contains(#[trigger] b[i]),
        keeps_every_path(ra, a),
        first_occurrences(ra, a),
        keeps_every_path(rb, b),
        first_occurrences(rb, b),
    ensures
        forall|i: int| 0 <= i < ra.len() ==> kept_or_equivalent(rb, #[trigger] ra[i]),
        forall|i: int| 0 <= i < rb.len() ==> kept_or_equivalent(ra, #[trigger] rb[i]),
{
    assert forall|i: int| 0 <= i < ra.len() implies kept_or_equivalent(rb, #[trigger] ra[i]) by {
        let k = choose|k: int|
            0 <= k < a.len() && a[k] == #[trigger] ra[i] && forall|m: int|
                0 <= m < k ==> path_order(a[m], a[k]) != 0;
        assert(b.contains(a[k]));
        let m = choose|m: int| 0 <= m < b.len() && b[m] == a[k];
        assert(kept_or_equivalent(rb, b[m]));
    }
    assert forall|i: int| 0 <= i < rb.len() implies kept_or_equivalent(ra, #[trigger] rb[i]) by {
        let k = choose|k: int|
            0 <= k < b.len() && b[k] == #[trigger] rb[i] && forall|m: int|
                0 <= m < k ==> path_order(b[m], b[k]) != 0;
        assert(a.contains(b[k]));
        let m = choose|m: int| 0 <= m < a.len() && a[m] == b[k];
        assert(kept_or_equivalent(ra, a[m]));
    }
}

/// The image extensions that are converted (in lower case).
pub open spec fn supported_extension_spec(ext: Seq<char>) -> bool {
    ||| ext == "jpg"@
    ||| ext == "jpeg"@
    ||| ext == "png"@
    ||| ext == "bmp"@
    ||| ext == "tiff"@
    ||| ext == "webp"@
}

/// Whether a path names a supported image: its extension, in lower case,
/// is one of the supported ones.
pub open spec fn supported_image_spec(path: Seq<char>) -> bool {
    match path_extension(path) {
        Some(ext) => supported_extension_spec(text_to_lowercase(ext)),
        None => false,
    }
}

/// Whether a lower-case extension is one of jpg, jpeg, png, bmp, tiff and webp.
pub fn is_supported_extension(ext: &str) -> (r: bool)
    ensures
        r == supported_extension_spec(ext@),
{
    let e = ext.to_owned();
    e == "jpg".to_string() || e == "jpeg".to_string() || e == "png".to_string() || e
        == "bmp".to_string() || e == "tiff".to_string() || e == "webp".to_string()
}

/// Whether the path has an extension that, in lower case, is a supported
/// image extension.
pub fn is_supported_image(path: &str) -> (r: bool)
    ensures
        r == supported_image_spec(path@),
{
    match extension(path) {
        Some(ext) => {
            let lower = to_lowercase(ext.as_str());
            is_supported_extension(lower.as_str())
        },
        None => false,
    }
}

} // verus!
