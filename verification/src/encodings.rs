//! The registry of bindings: an ordered list in which the first match wins.

use crate::encoding::{file_extension, path_extension, pattern_compiles, regex_compiles, Encoding};
use crate::error::AstgenError;
use vstd::prelude::*;
use vstd::string::*;

verus! {

/// The ordered registry of bindings.
pub struct Encodings<'a> {
    encodings: Vec<Encoding<'a>>,
}

/// The index of the first binding, at or after `from`, that applies to
/// `file_path`.
pub open spec fn first_match_from(bindings: Seq<Encoding>, file_path: Seq<char>, from: int) -> Option<
    int,
>
    decreases bindings.len() - from,
{
    if from < 0 || from >= bindings.len() {
        None
    } else if bindings[from].spec_matches(file_path) {
        Some(from)
    } else {
        first_match_from(bindings, file_path, from + 1)
    }
}

/// What `first_match_from` finds: the least matching index that is not below
/// `from`, or nothing when no binding from there on applies.
pub proof fn lemma_first_match_from(bindings: Seq<Encoding>, file_path: Seq<char>, from: int)
    requires
        0 <= from,
    ensures
        match first_match_from(bindings, file_path, from) {
            Some(i) => {
                &&& from <= i < bindings.len()
                &&& bindings[i].spec_matches(file_path)
                &&& forall|j: int| from <= j < i ==> !(#[trigger] bindings[j]).spec_matches(file_path)
            },
            None => forall|j: int|
                from <= j < bindings.len() ==> !(#[trigger] bindings[j]).spec_matches(file_path),
        },
    decreases bindings.len() - from,
{
    if from < bindings.len() && !bindings[from].spec_matches(file_path) {
        lemma_first_match_from(bindings, file_path, from + 1);
    }
}

impl<'a> Encodings<'a> {
    /// The bindings, in the order in which they were registered.
    pub closed spec fn bindings(&self) -> Seq<Encoding<'a>> {
        self.encodings@
    }

    /// The index of the first registered binding that applies to
    /// `file_path`.
    pub open spec fn first_match(&self, file_path: Seq<char>) -> Option<int> {
        first_match_from(self.bindings(), file_path, 0)
    }

    /// An empty registry.
    pub fn new() -> (registry: Self)
        ensures
            registry.bindings() == Seq::<Encoding<'a>>::empty(),
    {
        Encodings { encodings: Vec::new() }
    }

    /// The number of bindings.
    pub fn len(&self) -> (n: usize)
        ensures
            n == self.bindings().len(),
    {
        self.encodings.len()
    }

    /// The binding at `index`.
    pub fn get(&self, index: usize) -> (binding: Option<&Encoding<'a>>)
        ensures
            binding.is_some() == (index < self.bindings().len()),
            binding matches Some(b) ==> *b == self.bindings()[index as int],
    {
        if index < self.encodings.len() {
            Some(&self.encodings[index])
        } else {
            None
        }
    }

    /// Appends a binding behind all earlier ones.
    pub fn add(&mut self, extension_pattern: &str, language: &'a tree_sitter::Language, name: &str)
        -> (registry: &mut Self)
        requires
            regex_compiles(extension_pattern@),
        ensures
            registry.bindings().len() == old(self).bindings().len() + 1,
            registry.bindings().drop_last() == old(self).bindings(),
            registry.bindings().last().pattern() == extension_pattern@,
            registry.bindings().last().grammar() == *language,
            registry.bindings().last().display_name() == name@,
            *final(self) == *final(registry),
    {
        let ghost before = self.encodings@;
        self.encodings.push(Encoding::new(extension_pattern, language, name));
        assert(self.encodings@.drop_last() =~= before);
        self
    }

    /// Appends a binding if the pattern is a regular expression, and says
    /// whether it did. Otherwise the registry stays as it was.
    pub fn try_add(
        &mut self,
        extension_pattern: &str,
        language: &'a tree_sitter::Language,
        name: &str,
    ) -> (added: bool)
        ensures
            added == regex_compiles(extension_pattern@),
            !added ==> final(self).bindings() == old(self).bindings(),
            added ==> {
                &&& final(self).bindings().len() == old(self).bindings().len() + 1
                &&& final(self).bindings().drop_last() == old(self).bindings()
                &&& final(self).bindings().last().pattern() == extension_pattern@
                &&& final(self).bindings().last().grammar() == *language
                &&& final(self).bindings().last().display_name() == name@
            },
    {
        if pattern_compiles(extension_pattern) {
            self.add(extension_pattern, language, name);
            true
        } else {
            false
        }
    }

    /// The first registered binding that applies to `file_path`; `None` when
    /// no binding applies, which is the ordinary answer for a file type that
    /// is not supported.
    pub fn match_file(&self, file_path: &str) -> (found: Option<&Encoding<'a>>)
        ensures
            found.is_some() == self.first_match(file_path@).is_some(),
            found matches Some(binding) ==> *binding == self.bindings()[self.first_match(
                file_path@,
            ).unwrap()],
    {
        match self.match_index(file_path) {
            Some(i) => Some(&self.encodings[i]),
            None => None,
        }
    }

    /// The index of the first registered binding that applies to
    /// `file_path`.
    pub fn match_index(&self, file_path: &str) -> (found: Option<usize>)
        ensures
            found.is_some() == self.first_match(file_path@).is_some(),
            found matches Some(i) ==> i < self.bindings().len() && self.first_match(file_path@)
                == Some(i as int),
    {
        let extension = file_extension(file_path);
        let mut i: usize = 0;
        while i < self.encodings.len()
            invariant
                i <= self.encodings.len(),
                extension.is_some() == path_extension(file_path@).is_some(),
                extension matches Some(e) ==> path_extension(file_path@) == Some(e@),
                first_match_from(self.encodings@, file_path@, 0) == first_match_from(
                    self.encodings@,
                    file_path@,
                    i as int,
                ),
            decreases self.encodings.len() - i,
        {
            if self.encodings[i].matches_extension(extension) {
                return Some(i);
            }
            i += 1;
        }
        None
    }

    /// As `match_file`, or the error that names the extension which no
    /// binding supports (`unknown` for a path without one).
    pub fn match_file_or_error(&self, file_path: &str) -> (found: Result<
        &Encoding<'a>,
        AstgenError,
    >)
        ensures
            found.is_ok() == self.first_match(file_path@).is_some(),
            found matches Ok(binding) ==> *binding == self.bindings()[self.first_match(
                file_path@,
            ).unwrap()],
            found matches Err(e) ==> e matches AstgenError::LanguageNotSupported(ext) && ext@
                == match path_extension(file_path@) {
                Some(x) => x,
                None => "unknown"@,
            },
    {
        match self.match_file(file_path) {
            Some(binding) => Ok(binding),
            None => {
                let ext = match file_extension(file_path) {
                    Some(e) => e,
                    None => "unknown",
                };
                Err(AstgenError::LanguageNotSupported(ext.to_owned()))
            },
        }
    }
}

/// The first match wins: a binding is the answer exactly when it applies and
/// no binding registered before it does, however specific a later pattern
/// may be.
pub proof fn lemma_first_match_wins(registry: Encodings, file_path: Seq<char>, index: int)
    requires
        0 <= index < registry.bindings().len(),
    ensures
        registry.first_match(file_path) == Some(index) <==> {
            &&& registry.bindings()[index].spec_matches(file_path)
            &&& forall|j: int|
                0 <= j < index ==> !(#[trigger] registry.bindings()[j]).spec_matches(file_path)
        },
        registry.first_match(file_path) is None <==> forall|j: int|
            0 <= j < registry.bindings().len() ==> !(#[trigger] registry.bindings()[j]).spec_matches(
                file_path,
            ),
{
    lemma_first_match_from(registry.bindings(), file_path, 0);
}

} // verus!
