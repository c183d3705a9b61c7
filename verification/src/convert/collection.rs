//! Arrays and hashes: ordered sequences of convertible values, and ordered
//! lists of convertible pairs.

use vstd::prelude::*;
use crate::convert::{mismatch, Convert, Error};
use crate::types::{Ruby, Rust};
use crate::value::{Term, Value};

verus! {

/// Reads a sequence item by item, in order. The first item that does not fit
/// decides the error.
pub open spec fn decode_all<X, A>(
    items: Seq<X>,
    decode: spec_fn(X) -> Result<A, Error<Ruby, Rust>>,
) -> Result<Seq<A>, Error<Ruby, Rust>>
    decreases items.len(),
{
    if items.len() == 0 {
        Ok(Seq::empty())
    } else {
        match decode_all(items.drop_last(), decode) {
            Err(error) => Err(error),
            Ok(front) => match decode(items.last()) {
                Err(error) => Err(error),
                Ok(host) => Ok(front.push(host)),
            },
        }
    }
}

/// A sequence is read exactly when each of its items is, and then item by
/// item; otherwise the error is that of the first item that does not fit.
pub proof fn lemma_decode_all<X, A>(
    items: Seq<X>,
    decode: spec_fn(X) -> Result<A, Error<Ruby, Rust>>,
)
    ensures
        decode_all(items, decode) is Ok <==> forall|i: int|
            0 <= i < items.len() ==> (#[trigger] decode(items[i])) is Ok,
        decode_all(items, decode) matches Ok(hosts) ==> hosts.len() == items.len() && forall|i: int|
            0 <= i < items.len() ==> decode(items[i]) == Ok::<A, Error<Ruby, Rust>>(
                #[trigger] hosts[i],
            ),
        decode_all(items, decode) matches Err(error) ==> exists|i: int|
            0 <= i < items.len() && #[trigger] decode(items[i]) == Err::<A, Error<Ruby, Rust>>(
                error,
            ) && forall|j: int| 0 <= j < i ==> (#[trigger] decode(items[j])) is Ok,
    decreases items.len(),
{
    if items.len() > 0 {
        let front = items.drop_last();
        lemma_decode_all(front, decode);
        assert(forall|i: int| 0 <= i < front.len() ==> front[i] == items[i]);
        match decode_all(front, decode) {
            Err(error) => {
                let i = choose|i: int|
                    0 <= i < front.len() && #[trigger] decode(front[i]) == Err::<
                        A,
                        Error<Ruby, Rust>,
                    >(error) && forall|j: int| 0 <= j < i ==> (#[trigger] decode(front[j])) is Ok;
                assert(decode(items[i]) == Err::<A, Error<Ruby, Rust>>(error));
                assert(forall|j: int| 0 <= j < i ==> front[j] == items[j]);
            },
            Ok(hosts) => {
                match decode(items.last()) {
                    Err(error) => {
                        let i = items.len() - 1;
                        assert(decode(items[i]) == Err::<A, Error<Ruby, Rust>>(error));
                    },
                    Ok(host) => {
                        assert forall|i: int| 0 <= i < items.len() implies (#[trigger] decode(
                            items[i],
                        )) is Ok by {
                            if i < front.len() {
                                assert(front[i] == items[i]);
                            }
                        }
                    },
                }
            },
        }
    }
}

/// Reading one more item after a prefix that was read.
proof fn lemma_decode_all_step<X, A>(
    items: Seq<X>,
    decode: spec_fn(X) -> Result<A, Error<Ruby, Rust>>,
    n: int,
)
    requires
        0 <= n < items.len(),
        decode_all(items.take(n), decode) is Ok,
    ensures
        decode(items[n]) matches Ok(host) ==> decode_all(items.take(n + 1), decode) == Ok::<
            Seq<A>,
            Error<Ruby, Rust>,
        >(decode_all(items.take(n), decode)->Ok_0.push(host)),
        decode(items[n]) matches Err(error) ==> decode_all(items, decode) == Err::<
            Seq<A>,
            Error<Ruby, Rust>,
        >(error),
{
    assert(items.take(n + 1).drop_last() =~= items.take(n));
    assert(items.take(n + 1).last() == items[n]);
    if decode(items[n]) is Err {
        lemma_decode_all_prefix_error(items, decode, n + 1);
    }
}

/// An error in a prefix of a sequence is the error of the whole sequence.
proof fn lemma_decode_all_prefix_error<X, A>(
    items: Seq<X>,
    decode: spec_fn(X) -> Result<A, Error<Ruby, Rust>>,
    n: int,
)
    requires
        0 <= n <= items.len(),
        decode_all(items.take(n), decode) is Err,
    ensures
        decode_all(items, decode) == decode_all(items.take(n), decode),
    decreases items.len(),
{
    if n < items.len() {
        assert(items.drop_last().take(n) =~= items.take(n));
        lemma_decode_all_prefix_error(items.drop_last(), decode, n);
    } else {
        assert(items.take(n) =~= items);
    }
}

/// The VM values that a sequence of host values becomes, element by element.
pub open spec fn encode_seq<T: Convert>(hosts: Seq<T::V>) -> Seq<Term> {
    Seq::new(hosts.len(), |i: int| T::encode(hosts[i]))
}

/// How one element of an array is read.
pub open spec fn element_decoder<T: Convert>() -> spec_fn(Term) -> Result<T::V, Error<Ruby, Rust>> {
    |term: Term| T::decode(term)
}

/// Reads the elements of an array in order.
pub open spec fn decode_seq<T: Convert>(terms: Seq<Term>) -> Result<Seq<T::V>, Error<Ruby, Rust>> {
    decode_all(terms, element_decoder::<T>())
}

impl<T: Convert> Convert for Vec<T> {
    open spec fn representable(host: Seq<T::V>) -> bool {
        forall|i: int| 0 <= i < host.len() ==> T::representable(#[trigger] host[i])
    }

    open spec fn encode(host: Seq<T::V>) -> Term {
        Term::Array(encode_seq::<T>(host))
    }

    open spec fn decode(term: Term) -> Result<Seq<T::V>, Error<Ruby, Rust>> {
        match term {
            Term::Array(items) => decode_seq::<T>(items),
            _ => Err(mismatch(term.ruby_type(), Rust::Vec)),
        }
    }

    proof fn lemma_round_trip(host: Seq<T::V>) {
        let terms = encode_seq::<T>(host);
        let decode = element_decoder::<T>();
        lemma_decode_all(terms, decode);
        assert forall|i: int| 0 <= i < terms.len() implies (#[trigger] decode(terms[i])) is Ok by {
            T::lemma_round_trip(host[i]);
        }
        let back = decode_all(terms, decode)->Ok_0;
        assert forall|i: int| 0 <= i < back.len() implies T::representable(#[trigger] back[i])
            && T::encode(back[i]) == T::encode(host[i]) by {
            T::lemma_round_trip(host[i]);
            assert(decode(terms[i]) == Ok::<T::V, Error<Ruby, Rust>>(back[i]));
        }
        assert(encode_seq::<T>(back) =~= terms);
    }

    fn convert(&self) -> (value: Value) {
        let mut items: Vec<Value> = Vec::new();
        let mut i: usize = 0;
        while i < self.len()
            invariant
                i <= self.len(),
                items.len() == i,
                Self::representable(self.deep_view()),
                forall|j: int| 0 <= j < i ==> items[j]@ == T::encode(self[j].deep_view()),
            decreases self.len() - i,
        {
            assert(self.deep_view()[i as int] == self[i as int].deep_view());
            items.push(self[i].convert());
            i += 1;
        }
        assert(Value::Array(items)@->Array_0 =~= encode_seq::<T>(self.deep_view()));
        Value::Array(items)
    }

    fn try_convert(value: &Value) -> (result: Result<Self, Error<Ruby, Rust>>) {
        match value {
            Value::Array(items) => {
                let ghost terms = value@->Array_0;
                let ghost decode = element_decoder::<T>();
                let mut hosts: Vec<T> = Vec::new();
                assert(hosts.deep_view() =~= Seq::empty());
                let mut i: usize = 0;
                while i < items.len()
                    invariant
                        i <= items.len(),
                        hosts.len() == i,
                        value@ == Term::Array(terms),
                        decode == element_decoder::<T>(),
                        terms.len() == items.len(),
                        forall|j: int| 0 <= j < items.len() ==> terms[j] == items[j]@,
                        decode_all(terms.take(i as int), decode) == Ok::<
                            Seq<T::V>,
                            Error<Ruby, Rust>,
                        >(hosts.deep_view()),
                    decreases items.len() - i,
                {
                    let ghost before = hosts.deep_view();
                    proof {
                        lemma_decode_all_step(terms, decode, i as int);
                    }
                    match T::try_convert(&items[i]) {
                        Ok(host) => {
                            hosts.push(host);
                            assert(hosts.deep_view() =~= before.push(host.deep_view()));
                        },
                        Err(error) => {
                            return Err(error);
                        },
                    }
                    i += 1;
                }
                assert(terms.take(i as int) =~= terms);
                Ok(hosts)
            },
            _ => Err(Error { from: value.ruby_type(), to: Rust::Vec }),
        }
    }
}

/// The VM pairs that a list of host pairs becomes, pair by pair.
pub open spec fn encode_pairs<K: Convert, V: Convert>(hosts: Seq<(K::V, V::V)>) -> Seq<
    (Term, Term),
> {
    Seq::new(hosts.len(), |i: int| (K::encode(hosts[i].0), V::encode(hosts[i].1)))
}

/// Reads one pair of a hash: the key first, then the value.
pub open spec fn decode_pair<K: Convert, V: Convert>(pair: (Term, Term)) -> Result<
    (K::V, V::V),
    Error<Ruby, Rust>,
> {
    match K::decode(pair.0) {
        Err(error) => Err(error),
        Ok(key) => match V::decode(pair.1) {
            Err(error) => Err(error),
            Ok(value) => Ok((key, value)),
        },
    }
}

/// How one pair of a hash is read.
pub open spec fn pair_decoder<K: Convert, V: Convert>() -> spec_fn((Term, Term)) -> Result<
    (K::V, V::V),
    Error<Ruby, Rust>,
> {
    |pair: (Term, Term)| decode_pair::<K, V>(pair)
}

/// Reads the pairs of a hash in order.
pub open spec fn decode_pairs<K: Convert, V: Convert>(pairs: Seq<(Term, Term)>) -> Result<
    Seq<(K::V, V::V)>,
    Error<Ruby, Rust>,
> {
    decode_all(pairs, pair_decoder::<K, V>())
}

impl<K: Convert, V: Convert> Convert for Vec<(K, V)> {
    open spec fn representable(host: Seq<(K::V, V::V)>) -> bool {
        forall|i: int|
            0 <= i < host.len() ==> K::representable((#[trigger] host[i]).0) && V::representable(
                host[i].1,
            )
    }

    open spec fn encode(host: Seq<(K::V, V::V)>) -> Term {
        Term::Hash(encode_pairs::<K, V>(host))
    }

    open spec fn decode(term: Term) -> Result<Seq<(K::V, V::V)>, Error<Ruby, Rust>> {
        match term {
            Term::Hash(pairs) => decode_pairs::<K, V>(pairs),
            _ => Err(mismatch(term.ruby_type(), Rust::Pairs)),
        }
    }

    proof fn lemma_round_trip(host: Seq<(K::V, V::V)>) {
        let terms = encode_pairs::<K, V>(host);
        let decode = pair_decoder::<K, V>();
        lemma_decode_all(terms, decode);
        assert forall|i: int| 0 <= i < terms.len() implies (#[trigger] decode(terms[i])) is Ok by {
            K::lemma_round_trip(host[i].0);
            V::lemma_round_trip(host[i].1);
        }
        let back = decode_all(terms, decode)->Ok_0;
        assert forall|i: int| 0 <= i < back.len() implies K::representable((#[trigger] back[i]).0)
            && V::representable(back[i].1) && K::encode(back[i].0) == K::encode(host[i].0)
            && V::encode(back[i].1) == V::encode(host[i].1) by {
            K::lemma_round_trip(host[i].0);
            V::lemma_round_trip(host[i].1);
            assert(decode(terms[i]) == Ok::<(K::V, V::V), Error<Ruby, Rust>>(back[i]));
        }
        assert(encode_pairs::<K, V>(back) =~= terms);
    }

    fn convert(&self) -> (value: Value) {
        let mut pairs: Vec<(Value, Value)> = Vec::new();
        let mut i: usize = 0;
        while i < self.len()
            invariant
                i <= self.len(),
                pairs.len() == i,
                Self::representable(self.deep_view()),
                forall|j: int|
                    0 <= j < i ==> pairs[j].0@ == K::encode(self[j].0.deep_view()) && pairs[j].1@
                        == V::encode(self[j].1.deep_view()),
            decreases self.len() - i,
        {
            assert(self.deep_view()[i as int] == self[i as int].deep_view());
            let key = self[i].0.convert();
            let value = self[i].1.convert();
            pairs.push((key, value));
            i += 1;
        }
        assert(Value::Hash(pairs)@->Hash_0 =~= encode_pairs::<K, V>(self.deep_view()));
        Value::Hash(pairs)
    }

    fn try_convert(value: &Value) -> (result: Result<Self, Error<Ruby, Rust>>) {
        match value {
            Value::Hash(pairs) => {
                let ghost terms = value@->Hash_0;
                let ghost decode = pair_decoder::<K, V>();
                let mut hosts: Vec<(K, V)> = Vec::new();
                assert(hosts.deep_view() =~= Seq::empty());
                let mut i: usize = 0;
                while i < pairs.len()
                    invariant
                        i <= pairs.len(),
                        hosts.len() == i,
                        value@ == Term::Hash(terms),
                        decode == pair_decoder::<K, V>(),
                        terms.len() == pairs.len(),
                        forall|j: int|
                            0 <= j < pairs.len() ==> terms[j] == (pairs[j].0@, pairs[j].1@),
                        decode_all(terms.take(i as int), decode) == Ok::<
                            Seq<(K::V, V::V)>,
                            Error<Ruby, Rust>,
                        >(hosts.deep_view()),
                    decreases pairs.len() - i,
                {
                    let ghost before = hosts.deep_view();
                    proof {
                        lemma_decode_all_step(terms, decode, i as int);
                    }
                    let key = match K::try_convert(&pairs[i].0) {
                        Ok(key) => key,
                        Err(error) => {
                            return Err(error);
                        },
                    };
                    let item = match V::try_convert(&pairs[i].1) {
                        Ok(item) => item,
                        Err(error) => {
                            return Err(error);
                        },
                    };
                    let ghost pair = (key.deep_view(), item.deep_view());
                    hosts.push((key, item));
                    assert(hosts.deep_view() =~= before.push(pair));
                    i += 1;
                }
                assert(terms.take(i as int) =~= terms);
                Ok(hosts)
            },
            _ => Err(Error { from: value.ruby_type(), to: Rust::Pairs }),
        }
    }
}

} // verus!
