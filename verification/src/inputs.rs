//! Named circuit inputs: a single field element, a vector of them, or a
//! matrix of them, with a deterministic flattening to one ordered sequence.

use vstd::prelude::*;
use crate::errors::InputConstructionError;

verus! {

/// One named input to a circuit: a single field element, a one-dimensional
/// sequence, or a two-dimensional sequence (matrix) of field elements.
#[derive(Debug, Clone, PartialEq)]
pub enum Inputs {
    BigInt(num_bigint::BigInt),
    BigIntVec(Vec<num_bigint::BigInt>),
    BigIntVecVec(Vec<Vec<num_bigint::BigInt>>),
}

/// The sequence of rows a matrix holds, each row seen as a sequence.
pub open spec fn rows_view(rows: Seq<Vec<num_bigint::BigInt>>) -> Seq<Seq<num_bigint::BigInt>> {
    rows.map_values(|row: Vec<num_bigint::BigInt>| row@)
}

/// The number of elements the rows hold together.
pub open spec fn row_length_sum(rows: Seq<Seq<num_bigint::BigInt>>) -> int
    decreases rows.len(),
{
    if rows.len() == 0 {
        0
    } else {
        row_length_sum(rows.drop_last()) + rows.last().len()
    }
}

impl Inputs {
    /// The flattening of an input: a scalar becomes the one-element
    /// sequence holding it, a vector stays as it is, and a matrix becomes
    /// its rows concatenated in their given order. Nothing is ever
    /// reordered, sorted or deduplicated.
    pub open spec fn flatten_spec(self) -> Seq<num_bigint::BigInt> {
        match self {
            Inputs::BigInt(x) => seq![x],
            Inputs::BigIntVec(v) => v@,
            Inputs::BigIntVecVec(m) => rows_view(m@).flatten(),
        }
    }

    /// Flattens the input into a single ordered sequence of field elements.
    pub fn flatten(&self) -> (r: Vec<num_bigint::BigInt>)
        ensures
            r@ == self.flatten_spec(),
    {
        match self {
            Inputs::BigInt(x) => {
                let mut out: Vec<num_bigint::BigInt> = Vec::new();
                out.push(x.clone());
                proof {
                    assert(out@ =~= seq![*x]);
                }
                out
            },
            Inputs::BigIntVec(v) => clone_elements(v),
            Inputs::BigIntVecVec(m) => {
                let mut out: Vec<num_bigint::BigInt> = Vec::new();
                let mut i: usize = 0;
                while i < m.len()
                    invariant
                        i <= m.len(),
                        out@ == rows_view(m@).subrange(0, i as int).flatten(),
                    decreases m.len() - i,
                {
                    let mut row = clone_elements(&m[i]);
                    proof {
                        let prefix = rows_view(m@).subrange(0, i as int);
                        prefix.lemma_flatten_push(m@[i as int]@);
                        assert(prefix.push(m@[i as int]@)
                            =~= rows_view(m@).subrange(0, i as int + 1));
                    }
                    out.append(&mut row);
                    i = i + 1;
                }
                proof {
                    assert(rows_view(m@).subrange(0, m@.len() as int) =~= rows_view(m@));
                }
                out
            },
        }
    }

    /// Builds an input from a flat sequence of field elements. This is a
    /// narrow convenience path: zero elements leave the variant undecidable
    /// and fail, one element yields a scalar, two yield a vector, and more
    /// than two are rejected rather than silently truncated.
    pub fn from_elements(items: Vec<num_bigint::BigInt>) -> (r: Result<
        Inputs,
        InputConstructionError,
    >)
        ensures
            items@.len() == 0 ==> r == Err::<Inputs, InputConstructionError>(
                InputConstructionError::Empty,
            ),
            items@.len() == 1 ==> (r matches Ok(v) && v == Inputs::BigInt(items@[0])),
            items@.len() == 2 ==> (r matches Ok(v) && v == Inputs::BigIntVec(items)
                && v.flatten_spec() == items@),
            items@.len() > 2 ==> r == Err::<Inputs, InputConstructionError>(
                InputConstructionError::TooManyElements,
            ),
    {
        let mut items = items;
        if items.len() == 0 {
            Err(InputConstructionError::Empty)
        } else if items.len() == 1 {
            let x = items.remove(0);
            Ok(Inputs::BigInt(x))
        } else if items.len() == 2 {
            Ok(Inputs::BigIntVec(items))
        } else {
            Err(InputConstructionError::TooManyElements)
        }
    }
}

/// Copies a sequence of field elements, value for value.
fn clone_elements(v: &Vec<num_bigint::BigInt>) -> (r: Vec<num_bigint::BigInt>)
    ensures
        r@ == v@,
{
    let mut out: Vec<num_bigint::BigInt> = Vec::new();
    let mut i: usize = 0;
    while i < v.len()
        invariant
            i <= v.len(),
            out@ == v@.subrange(0, i as int),
        decreases v.len() - i,
    {
        out.push(v[i].clone());
        proof {
            assert(out@ =~= v@.subrange(0, i as int + 1));
        }
        i = i + 1;
    }
    proof {
        assert(v@.subrange(0, v@.len() as int) =~= v@);
    }
    out
}

/// Flatten law for matrices: the flattening of a sequence of rows holds
/// exactly as many elements as the rows hold together.
pub proof fn lemma_flatten_length(rows: Seq<Seq<num_bigint::BigInt>>)
    ensures
        rows.flatten().len() == row_length_sum(rows),
    decreases rows.len(),
{
    if rows.len() == 0 {
    } else {
        lemma_flatten_length(rows.drop_last());
        rows.drop_last().lemma_flatten_push(rows.last());
        assert(rows.drop_last().push(rows.last()) =~= rows);
    }
}

/// Flatten laws: a scalar flattens to the one-element sequence holding it;
/// a vector flattens to itself unchanged; a matrix flattens to its rows
/// concatenated in their original order, and the flattening's length is the
/// sum of the row lengths.
pub proof fn lemma_flatten_laws(
    x: num_bigint::BigInt,
    v: Vec<num_bigint::BigInt>,
    m: Vec<Vec<num_bigint::BigInt>>,
)
    ensures
        Inputs::BigInt(x).flatten_spec() == seq![x],
        Inputs::BigIntVec(v).flatten_spec() == v@,
        Inputs::BigIntVecVec(m).flatten_spec() == rows_view(m@).flatten(),
        Inputs::BigIntVecVec(m).flatten_spec().len() == row_length_sum(rows_view(m@)),
{
    lemma_flatten_length(rows_view(m@));
}

} // verus!
