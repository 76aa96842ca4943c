//! The resolver: providers and the search over them.

use vstd::prelude::*;
use crate::error::{Error, ErrorKind, lemma_not_found_names_path, not_found, not_found_message};
use crate::text::has_suffix;

verus! {

/// Size information about a resource that resolved.
#[derive(Clone, Copy, Debug, PartialEq, Eq, Structural)]
pub struct Metadata {
    len: u64,
}

impl Metadata {
    /// The length that this descriptor stands for.
    pub closed spec fn spec_len(&self) -> u64 {
        self.len
    }

    /// A descriptor for a resource of `len` bytes.
    pub fn new(len: u64) -> (m: Metadata)
        ensures
            m.spec_len() == len,
    {
        Metadata { len }
    }

    /// The length of the resource in bytes.
    #[verifier::when_used_as_spec(spec_len)]
    pub fn len(&self) -> (n: u64)
        ensures
            n == self.spec_len(),
    {
        self.len
    }
}

/// One backing store that answers lookups for some subset of the paths.
///
/// A provider fails with `ErrorKind::NotFound` where it does not have the
/// path at all, and with any other kind where the path is its own but cannot
/// be served.
///
/// The two `allows` predicates say which answers an implementation may give
/// for a path. A store whose answers depend on the outside world allows
/// every answer that the world may force on it.
pub trait Provider {
    /// The readable stream that `reader` hands out.
    type Reader;

    /// Whether `reader` may answer `r` when asked for `path`.
    open spec fn reader_allows(&self, path: Seq<char>, r: Result<Self::Reader, Error>) -> bool {
        true
    }

    /// Whether `metadata` may answer `r` when asked for `path`.
    open spec fn metadata_allows(&self, path: Seq<char>, r: Result<Metadata, Error>) -> bool {
        true
    }

    /// Opens the resource named by `path`, as the caller wrote it, for reading.
    fn reader(&self, path: &str) -> (r: Result<Self::Reader, Error>)
        ensures
            self.reader_allows(path@, r),
    ;

    /// The size of the resource named by `path`, without opening it.
    fn metadata(&self, path: &str) -> (r: Result<Metadata, Error>)
        ensures
            self.metadata_allows(path@, r),
    ;
}

/// A boxed provider is the provider in the box. With this a file system can
/// hold providers of different types, as `Box<dyn Provider<Reader = R>>`.
impl<T: Provider + ?Sized> Provider for Box<T> {
    type Reader = T::Reader;

    open spec fn reader_allows(&self, path: Seq<char>, r: Result<T::Reader, Error>) -> bool {
        (**self).reader_allows(path, r)
    }

    open spec fn metadata_allows(&self, path: Seq<char>, r: Result<Metadata, Error>) -> bool {
        (**self).metadata_allows(path, r)
    }

    fn reader(&self, path: &str) -> (r: Result<T::Reader, Error>) {
        (**self).reader(path)
    }

    fn metadata(&self, path: &str) -> (r: Result<Metadata, Error>) {
        (**self).metadata(path)
    }
}

/// Whether an answer ends a search: a success, or a failure other than
/// `NotFound`.
pub open spec fn decisive<T>(answer: Result<T, Error>) -> bool {
    match answer {
        Ok(_) => true,
        Err(e) => e@.kind != ErrorKind::NotFound,
    }
}

/// A search over `n` providers for `path`, told by the answers it got.
///
/// `answers` holds what the providers that were asked returned, in the order
/// of asking, which is the order of registration; `allowed(j, a)` says
/// whether provider `j` may answer `a`. Every answer but the last sent the
/// search on. The result is the last answer where that one is decisive;
/// otherwise every provider was asked and the result is the error that
/// names `path`.
pub open spec fn search<T>(
    n: nat,
    allowed: spec_fn(int, Result<T, Error>) -> bool,
    path: Seq<char>,
    answers: Seq<Result<T, Error>>,
    result: Result<T, Error>,
) -> bool {
    &&& answers.len() <= n
    &&& forall|j: int| 0 <= j < answers.len() ==> allowed(j, #[trigger] answers[j])
    &&& forall|j: int| 0 <= j < answers.len() - 1 ==> !decisive(#[trigger] answers[j])
    &&& if answers.len() > 0 && decisive(answers.last()) {
        result == answers.last()
    } else {
        &&& answers.len() == n
        &&& result is Err
        &&& result->Err_0@ == not_found(path)
    }
}

/// What a search does with one answer: a decisive answer is its result, and
/// after any other it asks the next provider.
pub fn settle<T>(answer: Result<T, Error>) -> (r: Option<Result<T, Error>>)
    ensures
        r == if decisive(answer) {
            Some(answer)
        } else {
            None
        },
{
    match answer {
        Ok(found) => Some(Ok(found)),
        Err(e) => {
            if e.is_not_found() {
                None
            } else {
                Some(Err(e))
            }
        },
    }
}

/// Whether provider `j` can only answer that it does not have the path.
pub open spec fn misses<T>(allowed: spec_fn(int, Result<T, Error>) -> bool, j: int) -> bool {
    forall|a: Result<T, Error>| #[trigger] allowed(j, a) ==> !decisive(a)
}

/// Whether every answer that provider `j` can give ends a search.
pub open spec fn decides<T>(allowed: spec_fn(int, Result<T, Error>) -> bool, j: int) -> bool {
    forall|a: Result<T, Error>| #[trigger] allowed(j, a) ==> decisive(a)
}

/// Where provider `i` is the first that does not miss the path, and its
/// answer is decisive, a search asks the providers up to `i` and no other,
/// and its result is the answer of provider `i`.
pub proof fn lemma_first_decisive_answer<T>(
    n: nat,
    allowed: spec_fn(int, Result<T, Error>) -> bool,
    path: Seq<char>,
    answers: Seq<Result<T, Error>>,
    result: Result<T, Error>,
    i: int,
)
    requires
        search(n, allowed, path, answers, result),
        0 <= i < n,
        forall|j: int| 0 <= j < i ==> misses(allowed, j),
        decides(allowed, i),
    ensures
        answers.len() == i + 1,
        result == answers[i],
        allowed(i, result),
        decisive(result),
{
    assert forall|j: int| 0 <= j < answers.len() && j < i implies !decisive(answers[j]) by {
        assert(misses(allowed, j));
        assert(allowed(j, answers[j]));
    }
    assert(answers.len() > i) by {
        if 0 < answers.len() <= i {
            assert(!decisive(answers[answers.len() - 1]));
        }
    }
    assert(allowed(i, answers[i]));
    assert(decisive(answers[i]));
}

/// Where every provider misses the path, a search asks them all and fails
/// with `NotFound`, in a message that ends with the path as it was asked for.
pub proof fn lemma_all_miss<T>(
    n: nat,
    allowed: spec_fn(int, Result<T, Error>) -> bool,
    path: Seq<char>,
    answers: Seq<Result<T, Error>>,
    result: Result<T, Error>,
)
    requires
        search(n, allowed, path, answers, result),
        forall|j: int| 0 <= j < n ==> misses(allowed, j),
    ensures
        answers.len() == n,
        result is Err,
        result->Err_0@ == not_found(path),
        result->Err_0@.kind == ErrorKind::NotFound,
        has_suffix(result->Err_0@.message, path),
{
    if answers.len() > 0 {
        let k = answers.len() - 1;
        assert(misses(allowed, k));
        assert(allowed(k, answers[k]));
    }
    lemma_not_found_names_path(path);
}

/// An ordered list of providers presented as one namespace. The provider
/// registered first has the highest precedence.
pub struct FileSystem<P: Provider> {
    providers: Vec<P>,
}

impl<P: Provider> FileSystem<P> {
    /// The providers, in the order of their registration.
    pub closed spec fn providers(&self) -> Seq<P> {
        self.providers@
    }

    /// A file system without providers.
    pub fn new() -> (fs: FileSystem<P>)
        ensures
            fs.providers().len() == 0,
    {
        FileSystem { providers: Vec::new() }
    }

    /// Appends `provider` to the list, below every provider registered before.
    pub fn register_provider(&mut self, provider: P)
        ensures
            final(self).providers() == old(self).providers().push(provider),
    {
        self.providers.push(provider);
    }

    /// Which answers the providers may give when `reader` asks them for
    /// `path`: whether provider `j` may answer `a`.
    pub open spec fn reader_answers(&self, path: Seq<char>) -> spec_fn(
        int,
        Result<P::Reader, Error>,
    ) -> bool {
        |j: int, a: Result<P::Reader, Error>| self.providers()[j].reader_allows(path, a)
    }

    /// Which answers the providers may give when `metadata` asks them for
    /// `path`: whether provider `j` may answer `a`.
    pub open spec fn metadata_answers(&self, path: Seq<char>) -> spec_fn(
        int,
        Result<Metadata, Error>,
    ) -> bool {
        |j: int, a: Result<Metadata, Error>| self.providers()[j].metadata_allows(path, a)
    }

    /// Whether a search for `path` through `reader` that got `answers` from
    /// the providers it asked ends in `result`.
    pub open spec fn reads(
        &self,
        path: Seq<char>,
        answers: Seq<Result<P::Reader, Error>>,
        result: Result<P::Reader, Error>,
    ) -> bool {
        search(self.providers().len(), self.reader_answers(path), path, answers, result)
    }

    /// Whether a search for `path` through `metadata` that got `answers` from
    /// the providers it asked ends in `result`.
    pub open spec fn stats(
        &self,
        path: Seq<char>,
        answers: Seq<Result<Metadata, Error>>,
        result: Result<Metadata, Error>,
    ) -> bool {
        search(self.providers().len(), self.metadata_answers(path), path, answers, result)
    }

    /// Opens the resource named by `path` at the first provider that has it.
    ///
    /// The providers are asked in the order of registration. The first
    /// success is the result, and so is the first failure of a kind other
    /// than `NotFound`: after either no further provider is asked. Where
    /// every provider answers `NotFound`, the result is an error of that
    /// kind whose message names `path`.
    pub fn reader(&self, path: &str) -> (r: Result<P::Reader, Error>)
        ensures
            exists|answers: Seq<Result<P::Reader, Error>>| self.reads(path@, answers, r),
            self.providers().len() == 0 ==> r is Err && r->Err_0@ == not_found(path@),
    {
        let f = |p: &P| -> (a: Result<P::Reader, Error>)
            ensures
                p.reader_allows(path@, a),
            { p.reader(path) };
        let (r, Ghost(answers)) = self.find_provider(path, f);
        assert(self.reads(path@, answers, r));
        r
    }

    /// The size of the resource named by `path` at the first provider that
    /// has it. The search is that of `reader`.
    pub fn metadata(&self, path: &str) -> (r: Result<Metadata, Error>)
        ensures
            exists|answers: Seq<Result<Metadata, Error>>| self.stats(path@, answers, r),
            self.providers().len() == 0 ==> r is Err && r->Err_0@ == not_found(path@),
    {
        let f = |p: &P| -> (a: Result<Metadata, Error>)
            ensures
                p.metadata_allows(path@, a),
            { p.metadata(path) };
        let (r, Ghost(answers)) = self.find_provider(path, f);
        assert(self.stats(path@, answers, r));
        r
    }

    /// Whether `metadata` succeeds for `path`. This is a full search, with
    /// the failures of `metadata` folded into `false`.
    pub fn contains(&self, path: &str) -> (b: bool)
        ensures
            exists|answers: Seq<Result<Metadata, Error>>, r: Result<Metadata, Error>|
                #[trigger] self.stats(path@, answers, r) && b == (r is Ok),
            self.providers().len() == 0 ==> !b,
    {
        self.metadata(path).is_ok()
    }

    /// Where the provider at `i` is the first that has `path`, and opens it,
    /// `reader` returns what that provider returned and asks no provider
    /// after it.
    pub proof fn lemma_reader_first_success(
        &self,
        path: Seq<char>,
        answers: Seq<Result<P::Reader, Error>>,
        result: Result<P::Reader, Error>,
        i: int,
    )
        requires
            self.reads(path, answers, result),
            0 <= i < self.providers().len(),
            forall|j: int| 0 <= j < i ==> misses(self.reader_answers(path), j),
            forall|a: Result<P::Reader, Error>| #[trigger]
                self.providers()[i].reader_allows(path, a) ==> a is Ok,
        ensures
            answers.len() == i + 1,
            result == answers[i],
            result is Ok,
            self.providers()[i].reader_allows(path, result),
    {
        lemma_first_decisive_answer(
            self.providers().len(),
            self.reader_answers(path),
            path,
            answers,
            result,
            i,
        );
    }

    /// Where the provider at `i` is the first that does not miss `path`, and
    /// fails hard on it, `reader` fails with the very error of that provider
    /// and asks no provider after it, whatever those would have answered.
    pub proof fn lemma_reader_hard_failure(
        &self,
        path: Seq<char>,
        answers: Seq<Result<P::Reader, Error>>,
        result: Result<P::Reader, Error>,
        i: int,
    )
        requires
            self.reads(path, answers, result),
            0 <= i < self.providers().len(),
            forall|j: int| 0 <= j < i ==> misses(self.reader_answers(path), j),
            forall|a: Result<P::Reader, Error>| #[trigger]
                self.providers()[i].reader_allows(path, a) ==> a is Err && decisive(a),
        ensures
            answers.len() == i + 1,
            result == answers[i],
            result is Err,
            result->Err_0@.kind != ErrorKind::NotFound,
            self.providers()[i].reader_allows(path, result),
    {
        lemma_first_decisive_answer(
            self.providers().len(),
            self.reader_answers(path),
            path,
            answers,
            result,
            i,
        );
    }

    /// Where every provider misses `path`, `reader` fails with `NotFound`
    /// and a message that ends with `path`.
    pub proof fn lemma_reader_not_found(
        &self,
        path: Seq<char>,
        answers: Seq<Result<P::Reader, Error>>,
        result: Result<P::Reader, Error>,
    )
        requires
            self.reads(path, answers, result),
            forall|j: int| 0 <= j < self.providers().len() ==> misses(self.reader_answers(path), j),
        ensures
            result is Err,
            result->Err_0@.kind == ErrorKind::NotFound,
            result->Err_0@.message == not_found_message(path),
            has_suffix(result->Err_0@.message, path),
    {
        lemma_all_miss(self.providers().len(), self.reader_answers(path), path, answers, result);
    }

    /// The search that `reader` and `metadata` share: `f` is the one
    /// operation that is asked of each provider. Beside the result stand the
    /// answers that the search got.
    fn find_provider<T, F: Fn(&P) -> Result<T, Error>>(&self, path: &str, f: F) -> (r: (
        Result<T, Error>,
        Ghost<Seq<Result<T, Error>>>,
    ))
        requires
            forall|j: int|
                0 <= j < self.providers().len() ==> f.requires((&#[trigger] self.providers()[j],)),
        ensures
            search(
                self.providers().len(),
                |j: int, a: Result<T, Error>| f.ensures((&self.providers()[j],), a),
                path@,
                r.1@,
                r.0,
            ),
    {
        let ghost mut answers: Seq<Result<T, Error>> = Seq::empty();
        let n = self.providers.len();
        let mut i: usize = 0;
        while i < n
            invariant
                n == self.providers@.len(),
                i <= n,
                answers.len() == i,
                forall|j: int|
                    0 <= j < self.providers().len() ==> f.requires(
                        (&#[trigger] self.providers()[j],),
                    ),
                forall|j: int|
                    0 <= j < i ==> f.ensures((&self.providers()[j],), #[trigger] answers[j]),
                forall|j: int| 0 <= j < i ==> !decisive(#[trigger] answers[j]),
            decreases n - i,
        {
            assert(f.requires((&self.providers()[i as int],)));
            let answer = f(&self.providers[i]);
            proof {
                answers = answers.push(answer);
            }
            if let Some(result) = settle(answer) {
                return (result, Ghost(answers));
            }
            i += 1;
        }
        (Err(Error::not_found(path)), Ghost(answers))
    }
}

} // verus!
