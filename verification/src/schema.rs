//! The manifest data model: one remote file's metadata (`DrupalFileAsset`),
//! the manifest collection in its two wire shapes, record validation, and
//! the aggregate views the engine computes over a manifest.

use vstd::prelude::*;
use vstd::multiset::Multiset;
use vstd::string::StrSliceExecFns;
use vstd::string::StringExecFns;

use crate::text::{
    has_prefix, joined_url, lower_of, str_has_prefix, to_lowercase, trim_end_slashes,
    trim_start_slashes, trimmed_end_slashes,
};

verus! {

/// Source-system information carried by the wrapped wire shape.
pub struct DrupalSource {
    pub source_type: String,
    pub version: String,
}

/// One remote file's metadata entry within a manifest.
pub struct DrupalFileAsset {
    pub id: String,
    pub filename: String,
    pub uri: String,
    pub path: String,
    pub mime: String,
    pub size: Option<u64>,
    pub created: i64,
    pub changed: i64,
    pub scheme: String,
}

impl Clone for DrupalFileAsset {
    fn clone(&self) -> (res: Self)
        ensures
            res == *self,
    {
        DrupalFileAsset {
            id: self.id.clone(),
            filename: self.filename.clone(),
            uri: self.uri.clone(),
            path: self.path.clone(),
            mime: self.mime.clone(),
            size: self.size,
            created: self.created,
            changed: self.changed,
            scheme: self.scheme.clone(),
        }
    }
}

impl DrupalFileAsset {
    /// A record is valid when its four required fields are non-empty.
    pub open spec fn valid(self) -> bool {
        &&& self.id@.len() > 0
        &&& self.filename@.len() > 0
        &&& self.uri@.len() > 0
        &&& self.mime@.len() > 0
    }

    /// The message produced for the first required field found empty.
    pub open spec fn invalid_reason(self) -> Seq<char> {
        if self.id@.len() == 0 {
            "Missing ID"@
        } else if self.filename@.len() == 0 {
            "Missing filename"@
        } else if self.uri@.len() == 0 {
            "Missing URI"@
        } else {
            "Missing MIME type"@
        }
    }

    /// Checks the required fields, reporting the first one found empty.
    pub fn validate(&self) -> (r: Result<(), String>)
        ensures
            r is Ok <==> self.valid(),
            r matches Err(m) ==> m@ == self.invalid_reason(),
    {
        if self.id.as_str().unicode_len() == 0 {
            return Err(String::from_str("Missing ID"));
        }
        if self.filename.as_str().unicode_len() == 0 {
            return Err(String::from_str("Missing filename"));
        }
        if self.uri.as_str().unicode_len() == 0 {
            return Err(String::from_str("Missing URI"));
        }
        if self.mime.as_str().unicode_len() == 0 {
            return Err(String::from_str("Missing MIME type"));
        }
        Ok(())
    }

    /// Where the record sits under a root — the destination directory and
    /// the base URL resolve alike: `root/path` when a relative path is
    /// declared, else `root/filename`.
    pub open spec fn resolved_under(self, root: Seq<char>) -> Seq<char> {
        if self.path@.len() == 0 {
            trimmed_end_slashes(root) + seq!['/'] + self.filename@
        } else {
            joined_url(root, self.path@)
        }
    }

    /// Where the record lands under `base_path`: `base_path/path` when a
    /// relative path is declared, else `base_path/filename`.
    pub open spec fn local_path_of(self, base_path: Seq<char>) -> Seq<char> {
        self.resolved_under(base_path)
    }

    /// Resolves the record under `root`, for the destination path and the
    /// fetch URL alike.
    pub fn resolve_under(&self, root: &str) -> (r: String)
        ensures
            r@ == self.resolved_under(root@),
    {
        proof {
            reveal_strlit("/");
            assert("/"@ =~= seq!['/']);
        }
        let mut r = trim_end_slashes(root);
        r.append("/");
        if self.path.as_str().unicode_len() == 0 {
            r.append(self.filename.as_str());
        } else {
            let p = trim_start_slashes(self.path.as_str());
            r.append(p.as_str());
        }
        r
    }

    /// Resolves the destination path for this record under `base_path`.
    pub fn get_local_path(&self, base_path: &str) -> (r: String)
        ensures
            r@ == self.local_path_of(base_path@),
    {
        self.resolve_under(base_path)
    }

    /// A record is an image when its media type starts with `image/`.
    pub open spec fn spec_is_image(self) -> bool {
        has_prefix(self.mime@, "image/"@)
    }

    /// Tests whether the record's media type is an image type.
    pub fn is_image(&self) -> (r: bool)
        ensures
            r == self.spec_is_image(),
    {
        str_has_prefix(self.mime.as_str(), "image/")
    }

    /// The filename's characters after its last `'.'`; the whole filename
    /// when it holds no `'.'`.
    pub open spec fn spec_ext_segment(s: Seq<char>) -> Seq<char>
        decreases s.len(),
    {
        if s.len() == 0 {
            s
        } else if s.last() == '.' {
            Seq::empty()
        } else {
            Self::spec_ext_segment(s.drop_last()).push(s.last())
        }
    }

    /// The lower-cased portion of the filename after its last `'.'`.
    pub fn get_extension(&self) -> (r: Option<String>)
        ensures
            r matches Some(e) && e@ == lower_of(Self::spec_ext_segment(self.filename@)),
    {
        let s = self.filename.as_str();
        let n = s.unicode_len();
        let mut k = n;
        proof {
            assert(s@.subrange(0, n as int) =~= s@);
            assert(Self::spec_ext_segment(s@) + s@.skip(n as int) =~= Self::spec_ext_segment(s@));
        }
        while k > 0 && s.get_char(k - 1) != '.'
            invariant
                k <= n,
                n == s@.len(),
                Self::spec_ext_segment(s@) == Self::spec_ext_segment(s@.subrange(0, k as int))
                    + s@.skip(k as int),
            decreases k,
        {
            proof {
                let pre = s@.subrange(0, k as int);
                assert(pre.drop_last() =~= s@.subrange(0, k - 1 as int));
                assert(Self::spec_ext_segment(pre) == Self::spec_ext_segment(
                    s@.subrange(0, k - 1 as int),
                ).push(s@[k - 1]));
                assert(Self::spec_ext_segment(s@.subrange(0, k - 1 as int)).push(s@[k - 1])
                    + s@.skip(k as int) =~= Self::spec_ext_segment(s@.subrange(0, k - 1 as int))
                    + s@.skip(k - 1 as int));
            }
            k = k - 1;
        }
        proof {
            if k == 0 {
                assert(s@.subrange(0, 0) =~= Seq::<char>::empty());
                assert(Self::spec_ext_segment(Seq::<char>::empty()) + s@.skip(0) =~= s@.skip(
                    0 as int,
                ));
            } else {
                assert(s@.subrange(0, k as int).last() == '.');
                assert(Seq::<char>::empty() + s@.skip(k as int) =~= s@.skip(k as int));
            }
            assert(Self::spec_ext_segment(s@) == s@.skip(k as int));
            assert(s@.subrange(k as int, n as int) =~= s@.skip(k as int));
        }
        let seg = s.substring_char(k, n);
        Some(to_lowercase(seg))
    }
}

/// The wrapped wire shape: records plus manifest-level metadata.
pub struct DrupalFileAssetsWrapper {
    pub version: String,
    pub generated: i64,
    pub source: DrupalSource,
    pub files: Vec<DrupalFileAsset>,
}

/// Whether every record in `files` is valid.
pub open spec fn all_valid(files: Seq<DrupalFileAsset>) -> bool {
    forall|i: int| 0 <= i < files.len() ==> files[i].valid()
}

/// The loader's message for an invalid record: it names the record's `id`,
/// or `unknown` when the `id` itself is the empty field.
pub open spec fn wrapper_error_of(a: DrupalFileAsset) -> Seq<char> {
    "Asset "@ + (if a.id@.len() == 0 {
        "unknown"@
    } else {
        a.id@
    }) + " validation failed: "@ + a.invalid_reason()
}

/// The sum of the declared sizes of `files` (absent sizes count as zero).
pub open spec fn spec_total_size(files: Seq<DrupalFileAsset>) -> int
    decreases files.len(),
{
    if files.len() == 0 {
        0
    } else {
        spec_total_size(files.drop_last()) + (match files.last().size {
            Some(s) => s as int,
            None => 0,
        })
    }
}

/// How many records of `files` are images.
pub open spec fn spec_image_count(files: Seq<DrupalFileAsset>) -> int
    decreases files.len(),
{
    if files.len() == 0 {
        0
    } else {
        spec_image_count(files.drop_last()) + (if files.last().spec_is_image() {
            1int
        } else {
            0int
        })
    }
}

proof fn lemma_total_size_step(files: Seq<DrupalFileAsset>, i: int)
    requires
        0 <= i < files.len(),
    ensures
        spec_total_size(files.subrange(0, i + 1)) == spec_total_size(files.subrange(0, i))
            + (match files[i].size {
            Some(s) => s as int,
            None => 0,
        }),
{
    assert(files.subrange(0, i + 1).drop_last() =~= files.subrange(0, i));
}

proof fn lemma_total_size_prefix_bound(files: Seq<DrupalFileAsset>, i: int)
    requires
        0 <= i <= files.len(),
    ensures
        spec_total_size(files.subrange(0, i)) <= spec_total_size(files),
    decreases files.len() - i,
{
    if i == files.len() {
        assert(files.subrange(0, i) =~= files);
    } else {
        lemma_total_size_step(files, i);
        lemma_total_size_prefix_bound(files, i + 1);
    }
}

/// Checks every record of `files`, failing on the first invalid one with a
/// message naming that record's `id` (or `unknown` when the `id` itself is
/// empty).
pub fn validate_assets(files: &[DrupalFileAsset]) -> (r: Result<(), String>)
    ensures
        r is Ok <==> all_valid(files@),
        r matches Err(m) ==> exists|i: int|
            0 <= i < files@.len() && !files@[i].valid() && (forall|j: int|
                0 <= j < i ==> files@[j].valid()) && m@ == wrapper_error_of(files@[i]),
{
    let n = files.len();
    let mut i: usize = 0;
    while i < n
        invariant
            i <= n,
            n == files@.len(),
            forall|j: int| 0 <= j < i ==> files@[j].valid(),
        decreases n - i,
    {
        let asset = &files[i];
        match asset.validate() {
            Ok(()) => {},
            Err(e) => {
                let mut m = String::from_str("Asset ");
                if asset.id.as_str().unicode_len() == 0 {
                    m.append("unknown");
                } else {
                    m.append(asset.id.as_str());
                }
                m.append(" validation failed: ");
                m.append(e.as_str());
                proof {
                    assert(!files@[i as int].valid());
                }
                return Err(m);
            },
        }
        i = i + 1;
    }
    Ok(())
}

impl DrupalFileAssetsWrapper {
    /// Checks every record, failing on the first invalid one with a message
    /// naming that record.
    pub fn validate(&self) -> (r: Result<(), String>)
        ensures
            r is Ok <==> all_valid(self.files@),
            r matches Err(m) ==> exists|i: int|
                0 <= i < self.files@.len() && !self.files@[i].valid() && (forall|j: int|
                    0 <= j < i ==> self.files@[j].valid()) && m@ == wrapper_error_of(
                    self.files@[i],
                ),
    {
        validate_assets(self.files.as_slice())
    }

    /// Sums the declared sizes of all records.
    pub fn total_size(&self) -> (r: u64)
        requires
            spec_total_size(self.files@) <= u64::MAX,
        ensures
            r == spec_total_size(self.files@),
    {
        let n = self.files.len();
        let mut acc: u64 = 0;
        let mut i: usize = 0;
        proof {
            assert(self.files@.subrange(0, 0) =~= Seq::<DrupalFileAsset>::empty());
        }
        while i < n
            invariant
                i <= n,
                n == self.files@.len(),
                acc == spec_total_size(self.files@.subrange(0, i as int)),
                spec_total_size(self.files@) <= u64::MAX,
            decreases n - i,
        {
            proof {
                lemma_total_size_step(self.files@, i as int);
                lemma_total_size_prefix_bound(self.files@, i + 1 as int);
            }
            match self.files[i].size {
                Some(s) => {
                    acc = acc + s;
                },
                None => {},
            }
            i = i + 1;
        }
        proof {
            assert(self.files@.subrange(0, n as int) =~= self.files@);
        }
        acc
    }

    /// Counts the image records.
    pub fn image_count(&self) -> (r: usize)
        ensures
            r == spec_image_count(self.files@),
    {
        let n = self.files.len();
        let mut count: usize = 0;
        let mut i: usize = 0;
        proof {
            assert(self.files@.subrange(0, 0) =~= Seq::<DrupalFileAsset>::empty());
        }
        while i < n
            invariant
                i <= n,
                n == self.files@.len(),
                count <= i,
                count == spec_image_count(self.files@.subrange(0, i as int)),
            decreases n - i,
        {
            proof {
                assert(self.files@.subrange(0, i + 1 as int).drop_last() =~= self.files@.subrange(
                    0,
                    i as int,
                ));
            }
            if self.files[i].is_image() {
                count = count + 1;
            }
            i = i + 1;
        }
        proof {
            assert(self.files@.subrange(0, n as int) =~= self.files@);
        }
        count
    }
}

/// The records of `files` whose media type is `m`, in their original order.
pub open spec fn mime_group(files: Seq<DrupalFileAsset>, m: Seq<char>) -> Seq<DrupalFileAsset>
    decreases files.len(),
{
    if files.len() == 0 {
        Seq::empty()
    } else {
        mime_group(files.drop_last(), m) + (if files.last().mime@ == m {
            seq![files.last()]
        } else {
            Seq::empty()
        })
    }
}

/// The distinct media types of `files`, in order of first occurrence.
pub open spec fn distinct_mimes(files: Seq<DrupalFileAsset>) -> Seq<Seq<char>>
    decreases files.len(),
{
    if files.len() == 0 {
        Seq::empty()
    } else {
        let d = distinct_mimes(files.drop_last());
        if d.contains(files.last().mime@) {
            d
        } else {
            d.push(files.last().mime@)
        }
    }
}

/// The groups for the media types of `mimes`, flattened in key order.
pub open spec fn concat_groups(files: Seq<DrupalFileAsset>, mimes: Seq<Seq<char>>) -> Seq<
    DrupalFileAsset,
>
    decreases mimes.len(),
{
    if mimes.len() == 0 {
        Seq::empty()
    } else {
        concat_groups(files, mimes.drop_last()) + mime_group(files, mimes.last())
    }
}

/// Whether the entries of `mimes` are pairwise distinct.
pub open spec fn mimes_distinct(mimes: Seq<Seq<char>>) -> bool {
    forall|k1: int, k2: int| 0 <= k1 < k2 < mimes.len() ==> mimes[k1] != mimes[k2]
}

proof fn lemma_distinct_mimes_distinct(files: Seq<DrupalFileAsset>)
    ensures
        mimes_distinct(distinct_mimes(files)),
    decreases files.len(),
{
    if files.len() > 0 {
        lemma_distinct_mimes_distinct(files.drop_last());
    }
}

proof fn lemma_distinct_mimes_complete(files: Seq<DrupalFileAsset>, m: Seq<char>)
    ensures
        distinct_mimes(files).contains(m) <==> exists|i: int|
            0 <= i < files.len() && files[i].mime@ == m,
    decreases files.len(),
{
    if files.len() > 0 {
        lemma_distinct_mimes_complete(files.drop_last(), m);
        let d = distinct_mimes(files.drop_last());
        if files.last().mime@ == m {
            assert(files[files.len() - 1].mime@ == m);
            if d.contains(m) {
            } else {
                assert(distinct_mimes(files)[d.len() as int] == m);
            }
        } else {
            if exists|i: int| 0 <= i < files.len() && files[i].mime@ == m {
                let i = choose|i: int| 0 <= i < files.len() && files[i].mime@ == m;
                assert(files.drop_last()[i] == files[i]);
            }
            if d.contains(m) {
                let k = choose|k: int| 0 <= k < d.len() && d[k] == m;
                assert(distinct_mimes(files)[k] == m);
            } else {
                if distinct_mimes(files).contains(m) {
                    let k = choose|k: int|
                        0 <= k < distinct_mimes(files).len() && distinct_mimes(files)[k] == m;
                    assert(0 <= k < d.len());
                }
            }
        }
    }
}

proof fn lemma_mime_group_absent(files: Seq<DrupalFileAsset>, m: Seq<char>)
    requires
        forall|i: int| 0 <= i < files.len() ==> files[i].mime@ != m,
    ensures
        mime_group(files, m) == Seq::<DrupalFileAsset>::empty(),
    decreases files.len(),
{
    if files.len() > 0 {
        assert(forall|i: int|
            0 <= i < files.drop_last().len() ==> files.drop_last()[i].mime@ != m);
        lemma_mime_group_absent(files.drop_last(), m);
        assert(files[files.len() - 1].mime@ != m);
        assert(mime_group(files, m) =~= Seq::<DrupalFileAsset>::empty());
    }
}

proof fn lemma_singleton_to_multiset(a: DrupalFileAsset)
    ensures
        seq![a].to_multiset() == Multiset::<DrupalFileAsset>::empty().insert(a),
{
    let e = Seq::<DrupalFileAsset>::empty();
    e.to_multiset_ensures();
    vstd::multiset::lemma_multiset_empty_len(e.to_multiset());
    assert(e.to_multiset() =~= Multiset::<DrupalFileAsset>::empty());
    vstd::seq_lib::to_multiset_build(e, a);
    assert(e.push(a) =~= seq![a]);
}

proof fn lemma_concat_groups_push_asset(
    files: Seq<DrupalFileAsset>,
    a: DrupalFileAsset,
    mimes: Seq<Seq<char>>,
)
    requires
        mimes_distinct(mimes),
    ensures
        mimes.contains(a.mime@) ==> concat_groups(files.push(a), mimes).to_multiset()
            =~= concat_groups(files, mimes).to_multiset().insert(a),
        !mimes.contains(a.mime@) ==> concat_groups(files.push(a), mimes).to_multiset()
            =~= concat_groups(files, mimes).to_multiset(),
    decreases mimes.len(),
{
    if mimes.len() == 0 {
    } else {
        let ms = mimes.drop_last();
        let m = mimes.last();
        assert(mimes_distinct(ms)) by {
            assert(forall|k1: int, k2: int|
                0 <= k1 < k2 < ms.len() ==> mimes[k1] == ms[k1] && mimes[k2] == ms[k2]);
        }
        lemma_concat_groups_push_asset(files, a, ms);
        // the last group gains `a` exactly when its key is `a.mime`
        assert(files.push(a).drop_last() =~= files);
        assert(files.push(a).last() == a);
        let gold = mime_group(files, m);
        let gnew = mime_group(files.push(a), m);
        assert(gnew == gold + (if a.mime@ == m {
            seq![a]
        } else {
            Seq::<DrupalFileAsset>::empty()
        }));
        vstd::seq_lib::lemma_multiset_commutative(concat_groups(files.push(a), ms), gnew);
        vstd::seq_lib::lemma_multiset_commutative(concat_groups(files, ms), gold);
        if a.mime@ == m {
            assert(mimes.contains(a.mime@)) by {
                assert(mimes[mimes.len() - 1] == a.mime@);
            }
            assert(!ms.contains(a.mime@)) by {
                if ms.contains(a.mime@) {
                    let k = choose|k: int| 0 <= k < ms.len() && ms[k] == a.mime@;
                    assert(mimes[k] == mimes[mimes.len() - 1]);
                }
            }
            vstd::seq_lib::lemma_multiset_commutative(gold, seq![a]);
            lemma_singleton_to_multiset(a);
            assert(concat_groups(files.push(a), mimes).to_multiset() =~= concat_groups(
                files,
                mimes,
            ).to_multiset().insert(a));
        } else {
            assert(gnew == gold + Seq::<DrupalFileAsset>::empty());
            assert(gnew =~= gold);
            if mimes.contains(a.mime@) {
                assert(ms.contains(a.mime@)) by {
                    let k = choose|k: int| 0 <= k < mimes.len() && mimes[k] == a.mime@;
                    assert(k < ms.len() && ms[k] == a.mime@);
                }
                assert(concat_groups(files.push(a), mimes).to_multiset() =~= concat_groups(
                    files,
                    mimes,
                ).to_multiset().insert(a));
            } else {
                assert(!ms.contains(a.mime@)) by {
                    if ms.contains(a.mime@) {
                        let k = choose|k: int| 0 <= k < ms.len() && ms[k] == a.mime@;
                        assert(mimes[k] == a.mime@);
                    }
                }
                assert(concat_groups(files.push(a), mimes).to_multiset() =~= concat_groups(
                    files,
                    mimes,
                ).to_multiset());
            }
        }
    }
}

/// Round trip: grouping a manifest's records by media type and flattening
/// the groups back together yields the same records, as a multiset, as the
/// original `files` sequence.
pub proof fn lemma_group_by_mime_round_trip(files: Seq<DrupalFileAsset>)
    ensures
        concat_groups(files, distinct_mimes(files)).to_multiset() =~= files.to_multiset(),
    decreases files.len(),
{
    broadcast use vstd::seq_lib::to_multiset_build;

    if files.len() == 0 {
        assert(files.to_multiset() =~= Multiset::<DrupalFileAsset>::empty()) by {
            files.to_multiset_ensures();
            vstd::multiset::lemma_multiset_empty_len(files.to_multiset());
        }
        let cg = concat_groups(files, distinct_mimes(files));
        assert(cg == Seq::<DrupalFileAsset>::empty());
        assert(cg.to_multiset() =~= Multiset::<DrupalFileAsset>::empty()) by {
            cg.to_multiset_ensures();
            vstd::multiset::lemma_multiset_empty_len(cg.to_multiset());
        }
    } else {
        let f = files.drop_last();
        let a = files.last();
        assert(f.push(a) =~= files);
        lemma_group_by_mime_round_trip(f);
        lemma_distinct_mimes_distinct(f);
        let d = distinct_mimes(f);
        lemma_distinct_mimes_complete(f, a.mime@);
        if d.contains(a.mime@) {
            assert(distinct_mimes(files) == d);
            lemma_concat_groups_push_asset(f, a, d);
            assert(concat_groups(files, d).to_multiset() =~= f.to_multiset().insert(a));
            assert(files.to_multiset() =~= f.to_multiset().insert(a));
        } else {
            assert(distinct_mimes(files) == d.push(a.mime@));
            lemma_concat_groups_push_asset(f, a, d);
            assert(d.push(a.mime@).drop_last() =~= d);
            assert(d.push(a.mime@).last() == a.mime@);
            assert(concat_groups(files, d.push(a.mime@)) == concat_groups(files, d) + mime_group(
                files,
                a.mime@,
            ));
            assert(forall|i: int| 0 <= i < f.len() ==> f[i].mime@ != a.mime@);
            lemma_mime_group_absent(f, a.mime@);
            assert(mime_group(files, a.mime@) == mime_group(f, a.mime@) + seq![a]);
            assert(mime_group(files, a.mime@) =~= seq![a]);
            vstd::seq_lib::lemma_multiset_commutative(
                concat_groups(files, d),
                mime_group(files, a.mime@),
            );
            lemma_singleton_to_multiset(a);
            assert(concat_groups(files, d.push(a.mime@)).to_multiset() =~= f.to_multiset().insert(
                a,
            ));
            assert(files.to_multiset() =~= f.to_multiset().insert(a));
        }
    }
}

fn keys_contain(keys: &Vec<String>, m: &str) -> (r: bool)
    ensures
        r == exists|k: int| 0 <= k < keys@.len() && keys@[k]@ == m@,
{
    let n = keys.len();
    let mut k: usize = 0;
    while k < n
        invariant
            k <= n,
            n == keys@.len(),
            forall|j: int| 0 <= j < k ==> keys@[j]@ != m@,
        decreases n - k,
    {
        if crate::text::str_eq(keys[k].as_str(), m) {
            return true;
        }
        k = k + 1;
    }
    false
}

impl DrupalFileAssetsWrapper {
    /// Groups the records by media type. The keys are the distinct media
    /// types in order of first occurrence, and each group holds exactly the
    /// records with that type, in their original order.
    pub fn group_by_mime(&self) -> (r: Vec<(String, Vec<DrupalFileAsset>)>)
        ensures
            r@.len() == distinct_mimes(self.files@).len(),
            forall|k: int| 0 <= k < r@.len() ==> r@[k].0@ == distinct_mimes(self.files@)[k],
            forall|k: int|
                0 <= k < r@.len() ==> r@[k].1@ == mime_group(self.files@, distinct_mimes(
                    self.files@,
                )[k]),
    {
        let files = &self.files;
        let n = files.len();
        // first pass: the distinct media types in order of first occurrence
        let mut keys: Vec<String> = Vec::new();
        let mut i: usize = 0;
        proof {
            assert(files@.subrange(0, 0) =~= Seq::<DrupalFileAsset>::empty());
        }
        while i < n
            invariant
                i <= n,
                n == files@.len(),
                keys@.len() == distinct_mimes(files@.subrange(0, i as int)).len(),
                forall|k: int|
                    0 <= k < keys@.len() ==> keys@[k]@ == distinct_mimes(
                        files@.subrange(0, i as int),
                    )[k],
            decreases n - i,
        {
            let ghost pre = files@.subrange(0, i as int);
            let ghost d = distinct_mimes(pre);
            proof {
                assert(files@.subrange(0, i + 1 as int).drop_last() =~= pre);
            }
            let found = keys_contain(&keys, files[i].mime.as_str());
            proof {
                if found {
                    let k = choose|k: int| 0 <= k < keys@.len() && keys@[k]@ == files@[i as int].mime@;
                    assert(d[k] == files@[i as int].mime@);
                    assert(d.contains(files@[i as int].mime@));
                } else {
                    if d.contains(files@[i as int].mime@) {
                        let k = choose|k: int| 0 <= k < d.len() && d[k] == files@[i as int].mime@;
                        assert(keys@[k]@ == files@[i as int].mime@);
                    }
                }
            }
            if !found {
                keys.push(files[i].mime.clone());
            }
            i = i + 1;
        }
        proof {
            assert(files@.subrange(0, n as int) =~= files@);
        }
        // second pass: collect each key's records
        let m = keys.len();
        let mut r: Vec<(String, Vec<DrupalFileAsset>)> = Vec::new();
        let mut k: usize = 0;
        while k < m
            invariant
                k <= m,
                m == keys@.len(),
                n == files@.len(),
                keys@.len() == distinct_mimes(files@).len(),
                forall|kk: int| 0 <= kk < keys@.len() ==> keys@[kk]@ == distinct_mimes(files@)[kk],
                r@.len() == k,
                forall|kk: int| 0 <= kk < k ==> r@[kk].0@ == distinct_mimes(files@)[kk],
                forall|kk: int|
                    0 <= kk < k ==> r@[kk].1@ == mime_group(files@, distinct_mimes(files@)[kk]),
            decreases m - k,
        {
            let key = keys[k].clone();
            let mut g: Vec<DrupalFileAsset> = Vec::new();
            let mut j: usize = 0;
            proof {
                assert(files@.subrange(0, 0) =~= Seq::<DrupalFileAsset>::empty());
            }
            while j < n
                invariant
                    j <= n,
                    n == files@.len(),
                    key@ == keys@[k as int]@,
                    g@ == mime_group(files@.subrange(0, j as int), key@),
                decreases n - j,
            {
                proof {
                    assert(files@.subrange(0, j + 1 as int).drop_last() =~= files@.subrange(
                        0,
                        j as int,
                    ));
                }
                if crate::text::str_eq(files[j].mime.as_str(), key.as_str()) {
                    g.push(files[j].clone());
                    proof {
                        assert(g@ =~= mime_group(files@.subrange(0, j as int), key@) + seq![
                            files@[j as int],
                        ]);
                    }
                } else {
                    proof {
                        assert(g@ =~= mime_group(files@.subrange(0, j as int), key@)
                            + Seq::<DrupalFileAsset>::empty());
                    }
                }
                j = j + 1;
            }
            proof {
                assert(files@.subrange(0, n as int) =~= files@);
            }
            r.push((key, g));
            k = k + 1;
        }
        r
    }
}

/// A manifest as received on the wire: either wrapped with metadata or a
/// bare array of records.
pub enum DrupalFileAssetsResponse {
    Wrapper(DrupalFileAssetsWrapper),
    Array(Vec<DrupalFileAsset>),
}

impl DrupalFileAssetsResponse {
    /// The record sequence a response denotes, whatever its wire shape.
    pub open spec fn spec_records(self) -> Seq<DrupalFileAsset> {
        match self {
            DrupalFileAssetsResponse::Wrapper(w) => w.files@,
            DrupalFileAssetsResponse::Array(assets) => assets@,
        }
    }

    /// Extracts the record list from either wire shape.
    pub fn into_vec(self) -> (r: Vec<DrupalFileAsset>)
        ensures
            r@ == self.spec_records(),
    {
        match self {
            DrupalFileAssetsResponse::Wrapper(w) => w.files,
            DrupalFileAssetsResponse::Array(assets) => assets,
        }
    }
}

} // verus!
