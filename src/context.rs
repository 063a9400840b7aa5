//! The working context of one resolution, and the upward marker scan.

use vstd::prelude::*;

verus! {

/// Why a resolution, or one validation attempt, did not produce a root.
#[derive(Clone, Copy, Debug, PartialEq, Eq, Structural)]
pub enum ResolveError {
    /// The type's rule could not establish a root in this tree.
    TypeMismatch(crate::cli::ProjectType),
    /// The type needs the working directory inside the configuration home,
    /// and it is not.
    OutsideConfigHome(crate::cli::ProjectType),
    /// The directory this many levels above the working directory could not
    /// be listed, or its manifest could not be read.
    IoFailure(usize),
    /// The user asserted this type and its rule did not hold.
    AssertedTypeIncorrect(crate::cli::ProjectType),
    /// No type's rule held.
    Indeterminate,
}

/// One ancestor directory, as it was read from the filesystem.
pub struct Listing {
    /// The names of the directory's entries; `None` when it could not be
    /// listed.
    pub entries: Option<Vec<String>>,
    /// The bytes of the directory's `package.json`; `None` when there is none
    /// or it could not be read.
    pub package_json: Option<Vec<u8>>,
}

/// What one resolution knows of its surroundings, captured once.
///
/// Paths are sequences of components below the filesystem root. The
/// listing at index `i` is that of the directory `i` levels above the working
/// directory; the listings run from the working directory up to the home
/// directory when the working directory lies under it, else up to the
/// filesystem root.
pub struct WorkingContext {
    pub work_dir: Vec<String>,
    pub home: Vec<String>,
    pub config_home: Vec<String>,
    pub listings: Vec<Listing>,
    /// Whether the Zenn command-line tool was found on the search path.
    pub zenn_installed: bool,
}

/// `a` is a component-wise prefix of `b`: `b` lies at or below `a`.
pub open spec fn is_prefix(a: Seq<String>, b: Seq<String>) -> bool {
    a.len() <= b.len() && forall|i: int| 0 <= i < a.len() ==> #[trigger] a[i]@ == b[i]@
}

/// How many directories the upward scan visits from `work`: up to and
/// including `home` when `work` lies under it, else up to the filesystem
/// root.
pub open spec fn levels_spec(work: Seq<String>, home: Seq<String>) -> nat {
    if is_prefix(home, work) {
        (work.len() - home.len() + 1) as nat
    } else {
        work.len() + 1
    }
}

/// The listing names an entry `m`.
pub open spec fn has_entry(l: Listing, m: Seq<char>) -> bool {
    match l.entries {
        Some(e) => exists|j: int| 0 <= j < e@.len() && (#[trigger] e@[j])@ == m,
        None => false,
    }
}

/// The listing could be read.
pub open spec fn listed(l: Listing) -> bool {
    l.entries.is_some()
}

/// The upward scan for `m` from level `i` on: the first level that holds
/// `m`, the first level that could not be listed, or nothing.
pub open spec fn scan_from(ls: Seq<Listing>, m: Seq<char>, i: int) -> Result<Option<usize>, ResolveError>
    decreases ls.len() - i,
{
    if i < 0 || i >= ls.len() {
        Ok(None)
    } else if !listed(ls[i]) {
        Err(ResolveError::IoFailure(i as usize))
    } else if has_entry(ls[i], m) {
        Ok(Some(i as usize))
    } else {
        scan_from(ls, m, i + 1)
    }
}

impl WorkingContext {
    /// The listings match the scan range of the working directory.
    pub open spec fn wf(&self) -> bool {
        &&& self.listings@.len() == levels_spec(self.work_dir@, self.home@)
        &&& self.listings@.len() <= usize::MAX
    }

    /// The result of the upward scan for `m`.
    pub open spec fn scan(&self, m: Seq<char>) -> Result<Option<usize>, ResolveError> {
        scan_from(self.listings@, m, 0)
    }

    /// The working directory lies at or below the configuration home.
    pub open spec fn in_config_home(&self) -> bool {
        is_prefix(self.config_home@, self.work_dir@)
    }

    /// The directory `level` levels above the working directory.
    pub open spec fn ancestor(&self, level: int) -> Seq<String> {
        self.work_dir@.subrange(0, self.work_dir@.len() - level)
    }

    /// Searches the working directory and then each ancestor, nearest first,
    /// for an entry named `target`, and gives the level of the first that
    /// holds one. A directory that cannot be listed ends the scan with an
    /// error.
    pub fn lookup(&self, target: &str) -> (r: Result<Option<usize>, ResolveError>)
        ensures
            r == self.scan(target@),
            r matches Ok(Some(k)) ==> k < self.listings@.len(),
    {
        let name = target.to_owned();
        let n = self.listings.len();
        let mut i: usize = 0;
        while i < n
            invariant
                0 <= i <= n,
                n == self.listings@.len(),
                name@ == target@,
                self.scan(target@) == scan_from(self.listings@, target@, i as int),
            decreases n - i,
        {
            let l = &self.listings[i];
            match &l.entries {
                None => {
                    return Err(ResolveError::IoFailure(i));
                },
                Some(entries) => {
                    let mut j: usize = 0;
                    while j < entries.len()
                        invariant
                            0 <= j <= entries@.len(),
                            0 <= i < n,
                            n == self.listings@.len(),
                            self.listings@[i as int].entries == Some(*entries),
                            self.scan(target@) == scan_from(self.listings@, target@, i as int),
                            name@ == target@,
                            forall|q: int| 0 <= q < j ==> (#[trigger] entries@[q])@ != target@,
                        decreases entries@.len() - j,
                    {
                        if entries[j] == name {
                            assert(self.listings@[i as int].entries.unwrap()@[j as int]@ == target@);
                            assert(has_entry(self.listings@[i as int], target@));
                            return Ok(Some(i));
                        }
                        j = j + 1;
                    }
                },
            }
            i = i + 1;
        }
        Ok(None)
    }
}

/// The upward scan finds the nearest level holding the marker: it returns
/// level `k` exactly when the listings up to `k` could be read, `k` is the
/// first of them to hold an entry named `m`, and `k` is within the scan
/// range, which ends at the home directory; it returns "not found" exactly
/// when every level of the range was listed and none holds `m`.
pub proof fn lemma_scan_nearest(ctx: &WorkingContext, m: Seq<char>, k: usize)
    requires
        ctx.wf(),
    ensures
        (ctx.scan(m) == Ok::<Option<usize>, ResolveError>(Some(k))) <==> (k < levels_spec(ctx.work_dir@, ctx.home@)
            && has_entry(ctx.listings@[k as int], m) && forall|j: int|
            0 <= j < k ==> listed(#[trigger] ctx.listings@[j]) && !has_entry(ctx.listings@[j], m)),
        (ctx.scan(m) == Ok::<Option<usize>, ResolveError>(None)) <==> forall|j: int|
            0 <= j < ctx.listings@.len() ==> listed(#[trigger] ctx.listings@[j]) && !has_entry(ctx.listings@[j], m),
{
    lemma_scan_from(ctx.listings@, m, 0, k);
}

/// The scan from level `i` on, characterised level by level.
proof fn lemma_scan_from(ls: Seq<Listing>, m: Seq<char>, i: int, k: usize)
    requires
        0 <= i <= ls.len(),
        ls.len() <= usize::MAX,
    ensures
        (scan_from(ls, m, i) == Ok::<Option<usize>, ResolveError>(Some(k))) <==> (i <= k < ls.len()
            && has_entry(ls[k as int], m) && forall|j: int|
            i <= j < k ==> listed(#[trigger] ls[j]) && !has_entry(ls[j], m)),
        (scan_from(ls, m, i) == Ok::<Option<usize>, ResolveError>(None)) <==> forall|j: int|
            i <= j < ls.len() ==> listed(#[trigger] ls[j]) && !has_entry(ls[j], m),
    decreases ls.len() - i,
{
    if i < ls.len() {
        lemma_scan_from(ls, m, i + 1, k);
        if !listed(ls[i]) {
            assert(!(forall|j: int| i <= j < ls.len() ==> listed(#[trigger] ls[j]) && !has_entry(ls[j], m)));
        }
    }
}

/// The upward scan depends on the listings alone: two contexts with the
/// same listings, or two scans of one context, give the same answer.
pub proof fn lemma_scan_deterministic(a: &WorkingContext, b: &WorkingContext, m: Seq<char>)
    requires
        a.listings@ == b.listings@,
    ensures
        a.scan(m) == b.scan(m),
{
}

/// Whether `a` is a component-wise prefix of `b`.
pub fn prefix_of(a: &Vec<String>, b: &Vec<String>) -> (r: bool)
    ensures
        r == is_prefix(a@, b@),
{
    if a.len() > b.len() {
        return false;
    }
    let mut i: usize = 0;
    while i < a.len()
        invariant
            a@.len() <= b@.len(),
            0 <= i <= a@.len(),
            forall|q: int| 0 <= q < i ==> #[trigger] a@[q]@ == b@[q]@,
        decreases a@.len() - i,
    {
        if !(a[i] == b[i]) {
            return false;
        }
        i = i + 1;
    }
    true
}

/// The configuration home: the one the environment names, else
/// `<home>/.config`.
pub fn config_home_of(named: Option<Vec<String>>, home: &Vec<String>) -> (r: Vec<String>)
    ensures
        r@.len() == match named {
            Some(c) => c@.len(),
            None => home@.len() + 1,
        },
        match named {
            Some(c) => r@ == c@,
            None => r@.drop_last() == home@ && r@.last()@ == ".config"@,
        },
{
    match named {
        Some(c) => c,
        None => {
            let mut r = crate::manager::path_prefix(home, home.len());
            assert(r@ =~= home@);
            r.push(".config".to_owned());
            r
        },
    }
}

/// The number of directories the upward scan visits from `work`, given the
/// home directory `home`.
pub fn scan_levels(work: &Vec<String>, home: &Vec<String>) -> (r: usize)
    requires
        work@.len() < usize::MAX,
    ensures
        r == levels_spec(work@, home@),
{
    if prefix_of(home, work) {
        work.len() - home.len() + 1
    } else {
        work.len() + 1
    }
}

} // verus!
