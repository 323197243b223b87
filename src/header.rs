use vstd::prelude::*;

use crate::text::{names_match, same_name};

verus! {

/// What may be done to a header store.
#[derive(Clone, Copy, Debug, PartialEq, Eq, Structural)]
pub enum HeadersKind {
    Mutable,
    RequestNoCors,
    Immutable,
}

/// The error of a change attempted on an immutable header store.
#[derive(Clone, Copy, Debug, PartialEq, Eq, Structural)]
pub enum HeadersError {
    Immutable,
}

/// One header line, as seen in contracts.
pub type HeaderView = (Seq<char>, Seq<char>);

pub open spec fn entry_view(e: (String, String)) -> HeaderView {
    (e.0@, e.1@)
}

pub open spec fn entries_view(s: Seq<(String, String)>) -> Seq<HeaderView> {
    s.map_values(|e: (String, String)| entry_view(e))
}

/// The entries of `s` that `keep` accepts, in their order.
pub open spec fn keep_entries(s: Seq<HeaderView>, keep: spec_fn(HeaderView) -> bool) -> Seq<HeaderView>
    decreases s.len(),
{
    if s.len() == 0 {
        Seq::empty()
    } else {
        let rest = keep_entries(s.drop_last(), keep);
        if keep(s.last()) {
            rest.push(s.last())
        } else {
            rest
        }
    }
}

/// Whether some entry of `s` is named `name`.
pub open spec fn has_name(s: Seq<HeaderView>, name: Seq<char>) -> bool {
    exists|i: int| 0 <= i < s.len() && same_name(#[trigger] s[i].0, name)
}

/// The values of the entries named `name`, in their order.
pub open spec fn values_of(s: Seq<HeaderView>, name: Seq<char>) -> Seq<Seq<char>>
    decreases s.len(),
{
    if s.len() == 0 {
        Seq::empty()
    } else {
        let rest = values_of(s.drop_last(), name);
        if same_name(s.last().0, name) {
            rest.push(s.last().1)
        } else {
            rest
        }
    }
}

/// `s` without the entries named `name`.
pub open spec fn without_name(s: Seq<HeaderView>, name: Seq<char>) -> Seq<HeaderView> {
    keep_entries(s, |e: HeaderView| !same_name(e.0, name))
}

/// Whether `name` is one of `names`, up to ASCII case.
pub open spec fn listed(names: Seq<Seq<char>>, name: Seq<char>) -> bool {
    exists|i: int| 0 <= i < names.len() && same_name(#[trigger] names[i], name)
}

/// `s` with only the entries whose name is one of `names`.
pub open spec fn only_listed(s: Seq<HeaderView>, names: Seq<Seq<char>>) -> Seq<HeaderView> {
    keep_entries(s, |e: HeaderView| listed(names, e.0))
}

pub open spec fn strings_view(v: Seq<String>) -> Seq<Seq<char>> {
    v.map_values(|s: String| s@)
}

/// A case-insensitive ordered multimap of header names to values.
///
/// Entries keep the order in which they were appended; no operation reorders
/// the entries that it keeps.
#[derive(Debug)]
pub struct Headers {
    pub entries: Vec<(String, String)>,
    pub kind: HeadersKind,
}

impl View for Headers {
    type V = Seq<HeaderView>;

    open spec fn view(&self) -> Seq<HeaderView> {
        entries_view(self.entries@)
    }
}

proof fn lemma_entries_view_push(s: Seq<(String, String)>, e: (String, String))
    ensures
        entries_view(s.push(e)) == entries_view(s).push(entry_view(e)),
{
    assert(entries_view(s.push(e)) =~= entries_view(s).push(entry_view(e)));
}

proof fn lemma_strings_view_push(s: Seq<String>, e: String)
    ensures
        strings_view(s.push(e)) == strings_view(s).push(e@),
{
    assert(strings_view(s.push(e)) =~= strings_view(s).push(e@));
}

/// Copies a header line.
fn copy_entry(e: &(String, String)) -> (r: (String, String))
    ensures
        entry_view(r) == entry_view(*e),
{
    (e.0.clone(), e.1.clone())
}

impl Headers {
    /// An empty store of the given kind.
    pub fn new(kind: HeadersKind) -> (r: Headers)
        ensures
            r@ == Seq::<HeaderView>::empty(),
            r.kind == kind,
    {
        let r = Headers { entries: Vec::new(), kind };
        assert(r@ =~= Seq::<HeaderView>::empty());
        r
    }

    /// A store holding the given lines, in their order.
    pub fn from_entries(entries: Vec<(String, String)>, kind: HeadersKind) -> (r: Headers)
        ensures
            r@ == entries_view(entries@),
            r.kind == kind,
    {
        Headers { entries, kind }
    }

    /// A copy of the store.
    pub fn copy(&self) -> (r: Headers)
        ensures
            r@ == self@,
            r.kind == self.kind,
    {
        let mut out: Vec<(String, String)> = Vec::new();
        let mut i: usize = 0;
        while i < self.entries.len()
            invariant
                0 <= i <= self.entries.len(),
                entries_view(out@) == entries_view(self.entries@.subrange(0, i as int)),
            decreases self.entries.len() - i,
        {
            let e = copy_entry(&self.entries[i]);
            proof {
                lemma_entries_view_push(out@, e);
                assert(self.entries@.subrange(0, i + 1) =~= self.entries@.subrange(0, i as int).push(
                    self.entries@[i as int],
                ));
                lemma_entries_view_push(self.entries@.subrange(0, i as int), self.entries@[i as int]);
            }
            out.push(e);
            i += 1;
        }
        assert(self.entries@.subrange(0, self.entries.len() as int) =~= self.entries@);
        Headers { entries: out, kind: self.kind }
    }

    /// The number of lines in the store.
    pub fn len(&self) -> (r: usize)
        ensures
            r == self@.len(),
    {
        self.entries.len()
    }

    /// Appends a line after every existing one; refused on an immutable store.
    pub fn append(&mut self, name: &str, value: &str) -> (r: Result<(), HeadersError>)
        ensures
            old(self).kind == HeadersKind::Immutable ==> r == Err::<(), HeadersError>(
                HeadersError::Immutable,
            ) && final(self)@ == old(self)@,
            old(self).kind != HeadersKind::Immutable ==> r == Ok::<(), HeadersError>(())
                && final(self)@ == old(self)@.push((name@, value@)),
            final(self).kind == old(self).kind,
    {
        if self.kind == HeadersKind::Immutable {
            return Err(HeadersError::Immutable);
        }
        self.push_entry(name, value);
        Ok(())
    }

    /// Appends a line whatever the kind of the store: for the pipeline's own
    /// rewriting of the headers it holds.
    pub(crate) fn push_entry(&mut self, name: &str, value: &str)
        ensures
            final(self)@ == old(self)@.push((name@, value@)),
            final(self).kind == old(self).kind,
    {
        let e = (name.to_owned(), value.to_owned());
        proof {
            lemma_entries_view_push(self.entries@, e);
        }
        self.entries.push(e);
    }

    /// Whether a line of the given name is present, up to ASCII case.
    pub fn contains(&self, name: &str) -> (r: bool)
        ensures
            r == has_name(self@, name@),
    {
        let mut i: usize = 0;
        while i < self.entries.len()
            invariant
                0 <= i <= self.entries.len(),
                forall|j: int| 0 <= j < i ==> !same_name(#[trigger] self@[j].0, name@),
            decreases self.entries.len() - i,
        {
            if names_match(self.entries[i].0.as_str(), name) {
                assert(same_name(self@[i as int].0, name@));
                return true;
            }
            i += 1;
        }
        false
    }

    /// The values of the lines of the given name, in the order they were added.
    pub fn get_all(&self, name: &str) -> (r: Vec<String>)
        ensures
            strings_view(r@) == values_of(self@, name@),
    {
        let mut out: Vec<String> = Vec::new();
        let mut i: usize = 0;
        while i < self.entries.len()
            invariant
                0 <= i <= self.entries.len(),
                strings_view(out@) == values_of(self@.subrange(0, i as int), name@),
            decreases self.entries.len() - i,
        {
            assert(self@.subrange(0, i + 1).drop_last() =~= self@.subrange(0, i as int));
            if names_match(self.entries[i].0.as_str(), name) {
                let v = self.entries[i].1.clone();
                proof {
                    lemma_strings_view_push(out@, v);
                }
                out.push(v);
            }
            i += 1;
        }
        assert(self@.subrange(0, self@.len() as int) =~= self@);
        out
    }

    /// Removes every line of the given name, the others keeping their order;
    /// refused on an immutable store.
    pub fn remove_all(&mut self, name: &str) -> (r: Result<(), HeadersError>)
        ensures
            old(self).kind == HeadersKind::Immutable ==> r == Err::<(), HeadersError>(
                HeadersError::Immutable,
            ) && final(self)@ == old(self)@,
            old(self).kind != HeadersKind::Immutable ==> r == Ok::<(), HeadersError>(())
                && final(self)@ == without_name(old(self)@, name@),
            final(self).kind == old(self).kind,
    {
        if self.kind == HeadersKind::Immutable {
            return Err(HeadersError::Immutable);
        }
        self.remove_entries(name);
        Ok(())
    }

    /// Removes every line of the given name whatever the kind of the store:
    /// for the pipeline's own filtering of the headers it holds.
    pub(crate) fn remove_entries(&mut self, name: &str)
        ensures
            final(self)@ == without_name(old(self)@, name@),
            final(self).kind == old(self).kind,
    {
        let ghost keep = |e: HeaderView| !same_name(e.0, name@);
        let ghost s = self@;
        let mut out: Vec<(String, String)> = Vec::new();
        let mut i: usize = 0;
        while i < self.entries.len()
            invariant
                0 <= i <= self.entries.len(),
                s == self@,
                keep == (|e: HeaderView| !same_name(e.0, name@)),
                entries_view(out@) == keep_entries(s.subrange(0, i as int), keep),
            decreases self.entries.len() - i,
        {
            assert(s.subrange(0, i + 1).drop_last() =~= s.subrange(0, i as int));
            assert(s.subrange(0, i + 1).last() == s[i as int]);
            if !names_match(self.entries[i].0.as_str(), name) {
                let e = copy_entry(&self.entries[i]);
                proof {
                    lemma_entries_view_push(out@, e);
                }
                out.push(e);
            }
            i += 1;
        }
        assert(s.subrange(0, s.len() as int) =~= s);
        self.entries = out;
    }

    /// Keeps only the lines whose name is one of `names`, up to ASCII case,
    /// whatever the kind of the store.
    pub(crate) fn retain_listed(&mut self, names: &Vec<String>)
        ensures
            final(self)@ == only_listed(old(self)@, strings_view(names@)),
            final(self).kind == old(self).kind,
    {
        let ghost ns = strings_view(names@);
        let ghost keep = |e: HeaderView| listed(ns, e.0);
        let ghost s = self@;
        let mut out: Vec<(String, String)> = Vec::new();
        let mut i: usize = 0;
        while i < self.entries.len()
            invariant
                0 <= i <= self.entries.len(),
                s == self@,
                ns == strings_view(names@),
                keep == (|e: HeaderView| listed(ns, e.0)),
                entries_view(out@) == keep_entries(s.subrange(0, i as int), keep),
            decreases self.entries.len() - i,
        {
            assert(s.subrange(0, i + 1).drop_last() =~= s.subrange(0, i as int));
            assert(s.subrange(0, i + 1).last() == s[i as int]);
            let found = is_listed(names, self.entries[i].0.as_str());
            if found {
                let e = copy_entry(&self.entries[i]);
                proof {
                    lemma_entries_view_push(out@, e);
                }
                out.push(e);
            }
            i += 1;
        }
        assert(s.subrange(0, s.len() as int) =~= s);
        self.entries = out;
    }

    /// Removes every line; refused on an immutable store.
    pub fn clear(&mut self) -> (r: Result<(), HeadersError>)
        ensures
            old(self).kind == HeadersKind::Immutable ==> r == Err::<(), HeadersError>(
                HeadersError::Immutable,
            ) && final(self)@ == old(self)@,
            old(self).kind != HeadersKind::Immutable ==> r == Ok::<(), HeadersError>(())
                && final(self)@ == Seq::<HeaderView>::empty(),
            final(self).kind == old(self).kind,
    {
        if self.kind == HeadersKind::Immutable {
            return Err(HeadersError::Immutable);
        }
        self.clear_entries();
        Ok(())
    }

    /// Removes every line whatever the kind of the store.
    pub(crate) fn clear_entries(&mut self)
        ensures
            final(self)@ == Seq::<HeaderView>::empty(),
            final(self).kind == old(self).kind,
    {
        self.entries = Vec::new();
        assert(self@ =~= Seq::<HeaderView>::empty());
    }
}

/// Whether `name` is one of `names`, up to ASCII case.
pub fn is_listed(names: &Vec<String>, name: &str) -> (r: bool)
    ensures
        r == listed(strings_view(names@), name@),
{
    let ghost ns = strings_view(names@);
    let mut i: usize = 0;
    while i < names.len()
        invariant
            0 <= i <= names.len(),
            ns == strings_view(names@),
            forall|j: int| 0 <= j < i ==> !same_name(#[trigger] ns[j], name@),
        decreases names.len() - i,
    {
        if names_match(names[i].as_str(), name) {
            assert(same_name(ns[i as int], name@));
            return true;
        }
        i += 1;
    }
    false
}

} // verus!
