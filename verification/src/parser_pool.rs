//! A bounded cache of parsers, one stack per language name.

use crate::error::AstgenError;
use crate::parsing::{
    grammar_accepted, grammar_refusal, new_parser, parser_grammar, parser_set_language,
};
use vstd::prelude::*;

verus! {

/// `dashmap::DashMap`, a concurrent hash map, held as an opaque value.
#[verifier::external_type_specification]
#[verifier::external_body]
#[verifier::reject_recursive_types(K)]
#[verifier::reject_recursive_types(V)]
#[verifier::reject_recursive_types(S)]
pub struct ExDashMap<K, V, S>(dashmap::DashMap<K, V, S>);

/// The map behind the pool: a stack of parsers under each language name.
pub type ParserCache = dashmap::DashMap<String, Vec<tree_sitter::Parser>>;

/// What a map of cached parsers holds: for each language name that has an
/// entry, the number of parsers on its stack.
pub uninterp spec fn cached(map: ParserCache) -> Map<
    Seq<char>,
    nat,
>;

/// A cache without entries.
pub open spec fn empty_cache() -> Map<Seq<char>, nat> {
    Map::empty()
}

/// Calls `dashmap::DashMap::new`: the new map has no entry.
#[verifier::external_body]
fn new_cache() -> (cache: ParserCache)
    ensures
        cached(cache) == empty_cache(),
{
    dashmap::DashMap::new()
}

/// Calls `DashMap::entry` with the name, `Entry::or_default` on the entry,
/// and `Vec::pop` on the stack behind it. Afterwards the name has an entry;
/// a parser comes back exactly when the stack held one, and the stack is
/// then one shorter. No other entry changes.
#[verifier::external_body]
fn take_cached(map: &mut ParserCache, name: &str) -> (parser:
    Option<tree_sitter::Parser>)
    ensures
        parser.is_some() == (cached(*old(map)).contains_key(name@) && cached(*old(map))[name@]
            > 0),
        cached(*final(map)) == cached(*old(map)).insert(
            name@,
            if parser.is_some() {
                (cached(*old(map))[name@] - 1) as nat
            } else {
                0nat
            },
        ),
{
    map.entry(name.to_string()).or_default().pop()
}

/// Calls `DashMap::get` with the name and `Vec::len` on the stack behind
/// it: the length of the stack of a name that has an entry.
#[verifier::external_body]
fn cached_count(map: &ParserCache, name: &str) -> (count:
    Option<usize>)
    ensures
        count.is_some() == cached(*map).contains_key(name@),
        count matches Some(n) ==> n == cached(*map)[name@],
{
    map.get(name).map(|stack| stack.len())
}

/// Calls `DashMap::get_mut` with a name that has an entry and `Vec::push`
/// on the stack behind it: the stack is one longer, no other entry changes.
#[verifier::external_body]
fn put_cached(
    map: &mut ParserCache,
    name: &str,
    parser: tree_sitter::Parser,
)
    requires
        cached(*old(map)).contains_key(name@),
    ensures
        cached(*final(map)) == cached(*old(map)).insert(name@, cached(*old(map))[name@] + 1),
{
    map.get_mut(name).unwrap().push(parser)
}

/// A cache of reusable parsers. It only saves the cost of making parsers:
/// what a parser returns does not depend on where it came from. The pool is
/// changed through exclusive access; workers that share one keep it behind a
/// lock.
pub struct ParserPool {
    parsers: ParserCache,
    max_pool_size: usize,
}

/// The number of parsers that are kept per language.
pub const MAX_POOL_SIZE: usize = 10;

impl ParserPool {
    /// For each language name that was asked for, the number of parsers
    /// that wait for reuse.
    pub closed spec fn idle(&self) -> Map<Seq<char>, nat> {
        cached(self.parsers)
    }

    /// The largest number of parsers kept per language.
    pub closed spec fn capacity(&self) -> nat {
        self.max_pool_size as nat
    }

    /// No language keeps more parsers than the capacity.
    pub open spec fn wf(&self) -> bool {
        forall|name: Seq<char>| #[trigger]
            self.idle().contains_key(name) ==> self.idle()[name] <= self.capacity()
    }

    /// The number of parsers that wait under a name; 0 for a name that was
    /// never asked for.
    pub open spec fn idle_count(&self, name: Seq<char>) -> nat {
        if self.idle().contains_key(name) {
            self.idle()[name]
        } else {
            0
        }
    }

    /// An empty pool that keeps up to ten parsers per language.
    pub fn new() -> (pool: Self)
        ensures
            pool.wf(),
            pool.capacity() == MAX_POOL_SIZE,
            pool.idle() == empty_cache(),
    {
        ParserPool { parsers: new_cache(), max_pool_size: MAX_POOL_SIZE }
    }

    /// The number of parsers that wait under a name, if it was ever asked
    /// for.
    pub fn idle_parsers(&self, language_name: &str) -> (count: Option<usize>)
        ensures
            count.is_some() == self.idle().contains_key(language_name@),
            count matches Some(n) ==> n == self.idle()[language_name@],
    {
        cached_count(&self.parsers, language_name)
    }

    /// Hands out a parser with the grammar set: a waiting one if there is
    /// any under the name, else a new one. The name is known to the pool
    /// afterwards, and one parser fewer waits under it. Where the grammar is
    /// refused, the parser is dropped and the refusal returned.
    pub fn get_parser(&mut self, language_name: &str, language: &tree_sitter::Language) -> (parser:
        Result<tree_sitter::Parser, AstgenError>)
        requires
            old(self).wf(),
        ensures
            final(self).wf(),
            final(self).capacity() == old(self).capacity(),
            final(self).idle() == old(self).idle().insert(
                language_name@,
                if old(self).idle_count(language_name@) > 0 {
                    (old(self).idle_count(language_name@) - 1) as nat
                } else {
                    0nat
                },
            ),
            parser.is_ok() == grammar_accepted(*language),
            parser matches Ok(p) ==> parser_grammar(p) == Some(*language),
            parser matches Err(e) ==> e matches AstgenError::TreeSitterError(refusal)
                && grammar_refusal(*language) == Some(refusal),
    {
        let mut parser = match take_cached(&mut self.parsers, language_name) {
            Some(waiting) => waiting,
            None => new_parser(),
        };
        proof {
            assert forall|k: Seq<char>| #[trigger] self.idle().contains_key(k) implies self.idle()[k]
                <= self.capacity() by {
                if k != language_name@ {
                    assert(old(self).idle().contains_key(k));
                } else if old(self).idle().contains_key(k) {
                    assert(old(self).idle()[k] <= old(self).capacity());
                }
            }
        }
        match parser_set_language(&mut parser, language) {
            Ok(()) => Ok(parser),
            Err(e) => Err(AstgenError::TreeSitterError(e)),
        }
    }

    /// Takes a parser back. It is kept if the name is known to the pool and
    /// fewer parsers than the capacity wait under it; otherwise it is
    /// dropped and the pool stays as it was.
    pub fn return_parser(&mut self, language_name: &str, parser: tree_sitter::Parser)
        requires
            old(self).wf(),
        ensures
            final(self).wf(),
            final(self).capacity() == old(self).capacity(),
            final(self).idle() == if old(self).idle().contains_key(language_name@) && old(
                self,
            ).idle()[language_name@] < old(self).capacity() {
                old(self).idle().insert(language_name@, old(self).idle()[language_name@] + 1)
            } else {
                old(self).idle()
            },
    {
        if let Some(count) = cached_count(&self.parsers, language_name) {
            if count < self.max_pool_size {
                put_cached(&mut self.parsers, language_name, parser);
            }
        }
        proof {
            assert forall|k: Seq<char>| #[trigger] self.idle().contains_key(k) implies self.idle()[k]
                <= self.capacity() by {
                if k != language_name@ {
                    assert(old(self).idle().contains_key(k));
                }
            }
        }
    }
}

impl Default for ParserPool {
    fn default() -> (pool: Self)
        ensures
            pool.wf(),
            pool.capacity() == MAX_POOL_SIZE,
            pool.idle() == empty_cache(),
    {
        ParserPool::new()
    }
}

} // verus!
