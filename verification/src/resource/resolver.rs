//! Layering multiple resources on top of each other.
use vstd::prelude::*;
use crate::common::Platform;
use crate::resource::{parse_found, parse_outcome, Resource};
use crate::text::{chars_of, string_from_chars};
use crate::{Error, ReadableFile};

verus! {

/// Allows layering multiple resources on top of each other; the first added has the most
/// priority.
pub struct ResourceResolver {
    resources: Vec<Box<dyn Resource>>,
}

/// Whether every resource of `srcs` answers as its `file_at` says.
pub open spec fn all_obey(srcs: Seq<Box<dyn Resource>>) -> bool {
    forall|i: int| 0 <= i < srcs.len() ==> (#[trigger] srcs[i]).obeys_file_spec()
}

/// The index of the first resource of `srcs`, from `from` on, that has a file at `path`; the
/// number of resources where none has.
pub open spec fn first_holder(srcs: Seq<Box<dyn Resource>>, path: Seq<char>, from: int) -> int
    decreases srcs.len() - from,
{
    if from < 0 || from >= srcs.len() {
        srcs.len() as int
    } else if srcs[from].file_at(path) is Some {
        from
    } else {
        first_holder(srcs, path, from + 1)
    }
}

/// The file at `path` of the first resource of `srcs` that has one.
pub open spec fn resolved_file(srcs: Seq<Box<dyn Resource>>, path: Seq<char>) -> Option<Seq<u8>> {
    let k = first_holder(srcs, path, 0);
    if k < srcs.len() {
        srcs[k].file_at(path)
    } else {
        None
    }
}

/// The search from `from` stops at or after `from`, within the resources, at one that has the
/// file where it stops before the end.
proof fn lemma_first_holder_range(srcs: Seq<Box<dyn Resource>>, path: Seq<char>, from: int)
    requires
        0 <= from <= srcs.len(),
    ensures
        from <= first_holder(srcs, path, from) <= srcs.len(),
        first_holder(srcs, path, from) < srcs.len() ==> srcs[first_holder(srcs, path, from)].file_at(
            path,
        ) is Some,
    decreases srcs.len() - from,
{
    if from < srcs.len() && srcs[from].file_at(path) is None {
        lemma_first_holder_range(srcs, path, from + 1);
    }
}

/// Where `all` is `srcs` with one more resource behind, the search in `all` from `from`
/// stops where the search in `srcs` does, unless that finds nothing.
proof fn lemma_first_holder_behind(
    srcs: Seq<Box<dyn Resource>>,
    all: Seq<Box<dyn Resource>>,
    path: Seq<char>,
    from: int,
)
    requires
        0 <= from <= srcs.len(),
        all.len() == srcs.len() + 1,
        forall|i: int| 0 <= i < srcs.len() ==> #[trigger] all[i] == srcs[i],
    ensures
        first_holder(all, path, from) == if first_holder(srcs, path, from) < srcs.len() {
            first_holder(srcs, path, from)
        } else if all[srcs.len() as int].file_at(path) is Some {
            srcs.len() as int
        } else {
            srcs.len() + 1int
        },
    decreases srcs.len() - from,
{
    if from < srcs.len() {
        assert(all[from] == srcs[from]);
        if srcs[from].file_at(path) is None {
            lemma_first_holder_behind(srcs, all, path, from + 1);
        }
    } else {
        assert(first_holder(all, path, from + 1) == all.len());
    }
}

/// A resource added behind others is read from only where none of them has the file: where
/// `all` holds the resources of `srcs` and one more behind them, the file found in `all` is
/// the one found in `srcs`, and else the last resource's.
pub proof fn law_add_source_priority(
    srcs: Seq<Box<dyn Resource>>,
    all: Seq<Box<dyn Resource>>,
    path: Seq<char>,
)
    requires
        all.len() == srcs.len() + 1,
        forall|i: int| 0 <= i < srcs.len() ==> #[trigger] all[i] == srcs[i],
    ensures
        resolved_file(all, path) == match resolved_file(srcs, path) {
            Some(f) => Some(f),
            None => all[srcs.len() as int].file_at(path),
        },
{
    lemma_first_holder_behind(srcs, all, path, 0);
    lemma_first_holder_range(srcs, path, 0);
    let k = first_holder(srcs, path, 0);
    if 0 <= k < srcs.len() {
        assert(all[k] == srcs[k]);
    }
}

/// The platform of the first resource of `srcs` that has a file at `path`; Windows where none
/// has.
pub open spec fn resolved_platform(srcs: Seq<Box<dyn Resource>>, path: Seq<char>) -> Platform {
    let k = first_holder(srcs, path, 0);
    if k < srcs.len() {
        srcs[k].platform_spec()
    } else {
        Platform::Win32
    }
}

impl ResourceResolver {
    /// The layered resources, the most prioritized first.
    pub closed spec fn sources(&self) -> Seq<Box<dyn Resource>> {
        self.resources@
    }

    /// The number of layered resources.
    pub open spec fn source_count(&self) -> nat {
        self.sources().len()
    }

    /// Creates a new, empty resolver.
    pub fn new() -> (r: Self)
        ensures
            r.sources() == Seq::<Box<dyn Resource>>::empty(),
    {
        Self { resources: Vec::new() }
    }

    /// Adds a new source to this resolver, and makes it the least prioritized.
    pub fn add_source(&mut self, source: Box<dyn Resource>)
        ensures
            final(self).sources() == old(self).sources().push(source),
            final(self).source_count() == old(self).source_count() + 1,
            forall|i: int|
                0 <= i < old(self).source_count() ==> #[trigger] final(self).sources()[i]
                    == old(self).sources()[i],
    {
        let ghost before = self.resources@;
        self.resources.push(source);
        proof {
            vstd::seq::axiom_seq_push_len(before, source);
            assert forall|i: int| 0 <= i < before.len() implies #[trigger] self.resources@[i]
                == before[i] by {
                vstd::seq::axiom_seq_push_index_different(before, source, i);
            }
        }
    }

    /// Reads the file at `path` from the first source that has it, in priority order; where
    /// every source answers as it says, that is the file of the first that has one, and
    /// `FileNotFound` where none has.
    pub fn read(&mut self, path: &str) -> (r: Result<Vec<u8>, Error>)
        ensures
            all_obey(old(self).sources()) ==> match resolved_file(old(self).sources(), path@) {
                Some(f) => r matches Ok(b) && b@ == f,
                None => r matches Err(Error::FileNotFound { path: p }) && p@ == path@,
            },
            r matches Err(e) ==> e matches Error::FileNotFound { path: p } && p@ == path@,
            old(self).source_count() == 0 ==> r is Err,
            final(self).source_count() == old(self).source_count(),
    {
        let ghost orig = self.resources@;
        let mut i: usize = 0;
        while i < self.resources.len()
            invariant
                i <= self.resources@.len(),
                self.resources@.len() == orig.len(),
                orig == old(self).resources@,
                forall|j: int| i <= j < orig.len() ==> self.resources@[j] == orig[j],
                all_obey(orig) ==> first_holder(orig, path@, 0) == first_holder(orig, path@, i as int),
            decreases self.resources@.len() - i,
        {
            assert(self.resources@[i as int] == orig[i as int]);
            let found = self.resources[i].read(path);
            if let Some(bytes) = found {
                assert(all_obey(orig) ==> orig[i as int].obeys_file_spec());
                return Ok(bytes);
            }
            assert(all_obey(orig) ==> orig[i as int].obeys_file_spec());
            i = i + 1;
        }
        Err(Error::FileNotFound { path: string_from_chars(&chars_of(path)) })
    }

    /// Whether any source has the file at `path`; where every source answers as it says,
    /// whether one of them has a file there.
    pub fn file_exists(&mut self, path: &str) -> (r: bool)
        ensures
            all_obey(old(self).sources()) ==> (r <==> exists|i: int|
                0 <= i < old(self).source_count() && (#[trigger] old(self).sources()[i]).file_at(
                    path@,
                ) is Some),
            old(self).source_count() == 0 ==> !r,
            final(self).source_count() == old(self).source_count(),
    {
        let ghost orig = self.resources@;
        let mut i: usize = 0;
        while i < self.resources.len()
            invariant
                i <= self.resources@.len(),
                self.resources@.len() == orig.len(),
                orig == old(self).resources@,
                forall|j: int| i <= j < orig.len() ==> self.resources@[j] == orig[j],
                all_obey(orig) ==> forall|j: int| 0 <= j < i ==> (#[trigger] orig[j]).file_at(path@) is None,
            decreases self.resources@.len() - i,
        {
            assert(self.resources@[i as int] == orig[i as int]);
            if self.resources[i].file_exists(path) {
                assert(all_obey(orig) ==> orig[i as int].obeys_file_spec());
                return true;
            }
            assert(all_obey(orig) ==> orig[i as int].obeys_file_spec());
            i = i + 1;
        }
        false
    }

    /// Reads and parses the file at `path` as format `F` from the first source that does not
    /// answer `FileNotFound`; where every source answers as it says, that is the first source
    /// that has the file, and `FileNotFound` where none has.
    pub fn parsed<F: ReadableFile>(&mut self, path: &str) -> (r: Result<F, Error>)
        ensures
            all_obey(old(self).sources()) ==> parse_outcome::<F>(
                resolved_file(old(self).sources(), path@),
                resolved_platform(old(self).sources(), path@),
                path@,
                r,
            ),
            r matches Err(e) ==> {
                ||| e matches Error::FileNotFound { path: p } && p@ == path@
                ||| e matches Error::FileParsingFailed { path: p } && p@ == path@
            },
            final(self).source_count() == old(self).source_count(),
    {
        let ghost orig = self.resources@;
        let mut i: usize = 0;
        while i < self.resources.len()
            invariant
                i <= self.resources@.len(),
                self.resources@.len() == orig.len(),
                orig == old(self).resources@,
                forall|j: int| i <= j < orig.len() ==> self.resources@[j] == orig[j],
                all_obey(orig) ==> first_holder(orig, path@, 0) == first_holder(orig, path@, i as int),
            decreases self.resources@.len() - i,
        {
            assert(self.resources@[i as int] == orig[i as int]);
            let file = self.resources[i].read(path);
            let platform = self.resources[i].platform();
            let result = parse_found::<F>(platform, file, path);
            assert(all_obey(orig) ==> orig[i as int].obeys_file_spec());
            match result {
                Err(Error::FileNotFound { .. }) => {},
                _ => {
                    return result;
                },
            }
            i = i + 1;
        }
        let r: Result<F, Error> = Err(
            Error::FileNotFound { path: string_from_chars(&chars_of(path)) },
        );
        assert(all_obey(orig) ==> parse_outcome::<F>(
            resolved_file(orig, path@),
            Platform::Win32,
            path@,
            r,
        ));
        r
    }
}

impl Default for ResourceResolver {
    /// An empty resolver.
    fn default() -> (r: Self)
        ensures
            r.sources() == Seq::<Box<dyn Resource>>::empty(),
    {
        Self::new()
    }
}

} // verus!
