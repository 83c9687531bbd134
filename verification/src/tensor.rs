//! Tensor metadata as the inference pipeline describes it in text: shapes such as
//! `"4:40:1:1,40:1:1:1"`, comma-separated type names and tensor names.

use vstd::prelude::*;

use crate::decimal::{
    lemma_nat_digits_are_digits, lemma_parse_u32_in_range, lemma_parse_u32_of_digits, nat_digits,
    parse_u32, parse_u32_spec, IntErrorKind, ParseIntError,
};
use crate::text::{
    chars_equal, chars_of, free_of, join_spec, lemma_join_split, lemma_split_join,
    lemma_split_len, lemma_split_pieces_free_of_sep, split_char, split_spec,
};

verus! {

/// Errors raised while reading tensor metadata.
#[derive(Clone, Debug)]
pub enum TensorError {
    /// The tensor type list could not be read.
    InvalidType { tensor_types: String },
    /// The tensor shape list could not be read.
    InvalidShape { tensor_shapes: String },
    /// Shapes, types and names disagree in number.
    TensorLength { tensor_shapes: String, tensor_types: String, tensor_names: String },
    /// A dimension of a shape is not a `u32`.
    ParseIntError { source: ParseIntError },
}

/// The element type of a tensor, named as the pipeline names it.
#[derive(Clone, Copy, Debug, PartialEq, Eq, Structural)]
pub enum TensorType {
    Boolean,
    Float32,
    Float64,
    Int32,
    Int64,
}

/// The name under which a tensor type is written.
pub open spec fn tensor_type_name(t: TensorType) -> Seq<char> {
    match t {
        TensorType::Boolean => "boolean"@,
        TensorType::Float32 => "float32"@,
        TensorType::Float64 => "float64"@,
        TensorType::Int32 => "int32"@,
        TensorType::Int64 => "int64"@,
    }
}

/// `s` names one of the tensor types.
pub open spec fn is_tensor_type_name(s: Seq<char>) -> bool {
    exists|t: TensorType| tensor_type_name(t) == s
}

/// The dimensions written in `pieces`, each as `str::parse::<u32>` reads it, or the
/// error of the first piece, from the left, that is not a `u32`.
pub open spec fn collect_dims(pieces: Seq<Seq<char>>) -> Result<Seq<u32>, IntErrorKind>
    decreases pieces.len(),
{
    if pieces.len() == 0 {
        Ok(Seq::<u32>::empty())
    } else {
        match parse_u32_spec(pieces[0]) {
            Err(e) => Err(e),
            Ok(v) => match collect_dims(pieces.drop_first()) {
                Ok(rest) => Ok(seq![v as u32] + rest),
                Err(e) => Err(e),
            },
        }
    }
}

/// The dimensions of one shape: its `:`-separated pieces read as `u32`.
pub open spec fn shape_spec(s: Seq<char>) -> Result<Seq<u32>, IntErrorKind> {
    collect_dims(split_spec(s, ':'))
}

/// The shapes written in `pieces`, or the error of the first one, from the left,
/// that does not read.
pub open spec fn collect_shapes(pieces: Seq<Seq<char>>) -> Result<Seq<Seq<u32>>, IntErrorKind>
    decreases pieces.len(),
{
    if pieces.len() == 0 {
        Ok(Seq::<Seq<u32>>::empty())
    } else {
        match shape_spec(pieces[0]) {
            Err(e) => Err(e),
            Ok(v) => match collect_shapes(pieces.drop_first()) {
                Ok(rest) => Ok(seq![v] + rest),
                Err(e) => Err(e),
            },
        }
    }
}

/// `acc` put in front of what `r` holds, or `r`'s error.
pub open spec fn prepend_ok<T>(acc: Seq<T>, r: Result<Seq<T>, IntErrorKind>) -> Result<
    Seq<T>,
    IntErrorKind,
> {
    match r {
        Ok(rest) => Ok(acc + rest),
        Err(e) => Err(e),
    }
}

/// A list of dimensions reads piece by piece: it reads exactly when every piece
/// is a `u32`, then the `i`th dimension is the `i`th piece's value; otherwise the
/// error is that of the first piece that is not a `u32`.
pub proof fn lemma_collect_dims(pieces: Seq<Seq<char>>)
    ensures
        collect_dims(pieces) is Ok <==> forall|i: int|
            0 <= i < pieces.len() ==> #[trigger] parse_u32_spec(pieces[i]) is Ok,
        collect_dims(pieces) matches Ok(r) ==> r.len() == pieces.len() && forall|i: int|
            0 <= i < pieces.len() ==> #[trigger] r[i] as int == parse_u32_spec(pieces[i])->Ok_0,
        collect_dims(pieces) matches Err(e) ==> exists|i: int|
            0 <= i < pieces.len() && #[trigger] parse_u32_spec(pieces[i]) == Err::<int, IntErrorKind>(
                e,
            ) && forall|j: int| 0 <= j < i ==> #[trigger] parse_u32_spec(pieces[j]) is Ok,
    decreases pieces.len(),
{
    if pieces.len() > 0 {
        let tail = pieces.drop_first();
        lemma_collect_dims(tail);
        lemma_parse_u32_in_range(pieces[0]);
        assert forall|i: int| 0 < i < pieces.len() implies pieces[i] == tail[i - 1] by {}
        match parse_u32_spec(pieces[0]) {
            Err(e) => {
                assert(parse_u32_spec(pieces[0]) == Err::<int, IntErrorKind>(e));
            },
            Ok(v) => {
                match collect_dims(tail) {
                    Ok(rest) => {
                        let r = seq![v as u32] + rest;
                        assert forall|i: int| 0 <= i < pieces.len() implies #[trigger] parse_u32_spec(
                            pieces[i],
                        ) is Ok && r[i] as int == parse_u32_spec(pieces[i])->Ok_0 by {
                            if i > 0 {
                                assert(parse_u32_spec(tail[i - 1]) is Ok);
                                assert(r[i] == rest[i - 1]);
                            }
                        }
                    },
                    Err(e) => {
                        let k = choose|k: int|
                            0 <= k < tail.len() && #[trigger] parse_u32_spec(tail[k])
                                == Err::<int, IntErrorKind>(e) && forall|j: int|
                                0 <= j < k ==> #[trigger] parse_u32_spec(tail[j]) is Ok;
                        assert(parse_u32_spec(pieces[k + 1]) == Err::<int, IntErrorKind>(e));
                        assert forall|j: int| 0 <= j < k + 1 implies #[trigger] parse_u32_spec(
                            pieces[j],
                        ) is Ok by {
                            if j > 0 {
                                assert(parse_u32_spec(tail[j - 1]) is Ok);
                            }
                        }
                    },
                }
            },
        }
    }
}

/// A list of shapes reads piece by piece: it reads exactly when every piece is a
/// shape, then the `i`th shape is the `i`th piece's; otherwise the error is that
/// of the first piece that is not a shape.
pub proof fn lemma_collect_shapes(pieces: Seq<Seq<char>>)
    ensures
        collect_shapes(pieces) is Ok <==> forall|i: int|
            0 <= i < pieces.len() ==> #[trigger] shape_spec(pieces[i]) is Ok,
        collect_shapes(pieces) matches Ok(r) ==> r.len() == pieces.len() && forall|i: int|
            0 <= i < pieces.len() ==> #[trigger] shape_spec(pieces[i]) == Ok::<
                Seq<u32>,
                IntErrorKind,
            >(r[i]),
        collect_shapes(pieces) matches Err(e) ==> exists|i: int|
            0 <= i < pieces.len() && #[trigger] shape_spec(pieces[i]) == Err::<
                Seq<u32>,
                IntErrorKind,
            >(e) && forall|j: int| 0 <= j < i ==> #[trigger] shape_spec(pieces[j]) is Ok,
    decreases pieces.len(),
{
    if pieces.len() > 0 {
        let tail = pieces.drop_first();
        lemma_collect_shapes(tail);
        assert forall|i: int| 0 < i < pieces.len() implies pieces[i] == tail[i - 1] by {}
        match shape_spec(pieces[0]) {
            Err(e) => {
                assert(shape_spec(pieces[0]) == Err::<Seq<u32>, IntErrorKind>(e));
            },
            Ok(v) => {
                match collect_shapes(tail) {
                    Ok(rest) => {
                        let r = seq![v] + rest;
                        assert forall|i: int| 0 <= i < pieces.len() implies #[trigger] shape_spec(
                            pieces[i],
                        ) is Ok && shape_spec(pieces[i]) == Ok::<Seq<u32>, IntErrorKind>(r[i]) by {
                            if i > 0 {
                                assert(shape_spec(tail[i - 1]) is Ok);
                                assert(r[i] == rest[i - 1]);
                            }
                        }
                    },
                    Err(e) => {
                        let k = choose|k: int|
                            0 <= k < tail.len() && #[trigger] shape_spec(tail[k])
                                == Err::<Seq<u32>, IntErrorKind>(e) && forall|j: int|
                                0 <= j < k ==> #[trigger] shape_spec(tail[j]) is Ok;
                        assert(shape_spec(pieces[k + 1]) == Err::<Seq<u32>, IntErrorKind>(e));
                        assert forall|j: int| 0 <= j < k + 1 implies #[trigger] shape_spec(
                            pieces[j],
                        ) is Ok by {
                            if j > 0 {
                                assert(shape_spec(tail[j - 1]) is Ok);
                            }
                        }
                    },
                }
            },
        }
    }
}

/// The decimal numerals of the dimensions, joined with `:`.
pub open spec fn decimal_shape(dims: Seq<u32>) -> Seq<char> {
    join_spec(dims.map_values(|d: u32| nat_digits(d as nat)), ':')
}

/// A nonempty list of dimensions, written in decimal and joined with `:`, reads
/// back as itself.
pub proof fn lemma_shape_of_decimal_shape(dims: Seq<u32>)
    requires
        dims.len() >= 1,
    ensures
        shape_spec(decimal_shape(dims)) == Ok::<Seq<u32>, IntErrorKind>(dims),
{
    let pieces = dims.map_values(|d: u32| nat_digits(d as nat));
    assert forall|i: int| 0 <= i < pieces.len() implies free_of(#[trigger] pieces[i], ':') by {
        lemma_nat_digits_are_digits(dims[i] as nat);
        assert forall|j: int| 0 <= j < pieces[i].len() implies pieces[i][j] != ':' by {
            assert(crate::decimal::is_ascii_digit(nat_digits(dims[i] as nat)[j]));
        }
    }
    lemma_split_join(pieces, ':');
    lemma_collect_dims(pieces);
    assert forall|i: int| 0 <= i < pieces.len() implies #[trigger] parse_u32_spec(pieces[i]) is Ok
        && parse_u32_spec(pieces[i])->Ok_0 == dims[i] as int by {
        lemma_parse_u32_of_digits(dims[i]);
    }
    let r = collect_dims(pieces)->Ok_0;
    assert(r =~= dims);
}

/// Parses one tensor shape, with dimensions separated by `:`: `"40:1:1:4"` gives
/// `[40, 1, 1, 4]`. Fails with the error of the first dimension that is not a `u32`.
pub fn parse_tensor_shape(tensor_shape: &str) -> (res: Result<Vec<u32>, ParseIntError>)
    ensures
        match res {
            Ok(v) => shape_spec(tensor_shape@) == Ok::<Seq<u32>, IntErrorKind>(v@),
            Err(e) => shape_spec(tensor_shape@) == Err::<Seq<u32>, IntErrorKind>(e.kind),
        },
        res is Ok <==> forall|k: int|
            0 <= k < split_spec(tensor_shape@, ':').len() ==> #[trigger] parse_u32_spec(
                split_spec(tensor_shape@, ':')[k],
            ) is Ok,
        res matches Ok(v) ==> v@.len() == split_spec(tensor_shape@, ':').len() && forall|k: int|
            0 <= k < v@.len() ==> #[trigger] v@[k] as int == parse_u32_spec(
                split_spec(tensor_shape@, ':')[k],
            )->Ok_0,
        res matches Err(e) ==> exists|k: int|
            0 <= k < split_spec(tensor_shape@, ':').len() && #[trigger] parse_u32_spec(
                split_spec(tensor_shape@, ':')[k],
            ) == Err::<int, IntErrorKind>(e.kind) && forall|j: int|
                0 <= j < k ==> #[trigger] parse_u32_spec(split_spec(tensor_shape@, ':')[j]) is Ok,
{
    let pieces = split_char(tensor_shape, ':');
    let ghost ps = split_spec(tensor_shape@, ':');
    let mut dims: Vec<u32> = Vec::new();
    let n = pieces.len();
    assert(ps.skip(0) =~= ps);
    for i in 0..n
        invariant
            n == ps.len(),
            ps == split_spec(tensor_shape@, ':'),
            pieces@.len() == ps.len(),
            forall|k: int| 0 <= k < pieces@.len() ==> #[trigger] pieces@[k]@ == ps[k],
            collect_dims(ps) == prepend_ok(dims@, collect_dims(ps.skip(i as int))),
    {
        let ghost rest = ps.skip(i as int);
        assert(rest[0] == ps[i as int]);
        assert(rest.drop_first() =~= ps.skip(i + 1));
        match parse_u32(pieces[i].as_str()) {
            Ok(v) => {
                let ghost before = dims@;
                dims.push(v);
                assert(forall|r: Seq<u32>|
                    before + (seq![v] + r) =~= #[trigger] (before.push(v) + r));
            },
            Err(e) => {
                assert(pieces@[i as int]@ == ps[i as int]);
                assert(collect_dims(rest) == Err::<Seq<u32>, IntErrorKind>(e.kind));
                proof {
                    lemma_collect_dims(ps);
                }
                return Err(e);
            },
        }
    }
    assert(ps.skip(n as int) =~= Seq::<Seq<char>>::empty());
    assert(dims@ + Seq::<u32>::empty() =~= dims@);
    proof {
        lemma_collect_dims(ps);
    }
    Ok(dims)
}

/// Parses a comma-separated list of tensor shapes, such as
/// `"4:40:1:1,40:1:1:1"`, into the number of shapes and the shapes. Fails with
/// `TensorError::ParseIntError` carrying the error of the first dimension, from
/// the left, that is not a `u32`. Splitting on `,` never yields an empty list, so
/// `TensorError::InvalidShape` is never returned.
pub fn parse_tensor_shapes(tensor_shapes: &str) -> (res: Result<(usize, Vec<Vec<u32>>), TensorError>)
    ensures
        match res {
            Ok((count, shapes)) => {
                &&& count == split_spec(tensor_shapes@, ',').len()
                &&& shapes@.len() == count
                &&& collect_shapes(split_spec(tensor_shapes@, ',')) is Ok
                &&& forall|k: int|
                    0 <= k < count ==> #[trigger] shapes@[k]@ == collect_shapes(
                        split_spec(tensor_shapes@, ','),
                    )->Ok_0[k]
            },
            Err(e) => e matches TensorError::ParseIntError { source } && collect_shapes(
                split_spec(tensor_shapes@, ','),
            ) == Err::<Seq<Seq<u32>>, IntErrorKind>(source.kind),
        },
        res is Ok <==> forall|k: int|
            0 <= k < split_spec(tensor_shapes@, ',').len() ==> #[trigger] shape_spec(
                split_spec(tensor_shapes@, ',')[k],
            ) is Ok,
        res matches Ok((count, shapes)) ==> forall|k: int|
            0 <= k < count ==> #[trigger] shape_spec(split_spec(tensor_shapes@, ',')[k]) == Ok::<
                Seq<u32>,
                IntErrorKind,
            >(shapes@[k]@),
        res matches Err(TensorError::ParseIntError { source }) ==> exists|k: int|
            0 <= k < split_spec(tensor_shapes@, ',').len() && #[trigger] shape_spec(
                split_spec(tensor_shapes@, ',')[k],
            ) == Err::<Seq<u32>, IntErrorKind>(source.kind) && forall|j: int|
                0 <= j < k ==> #[trigger] shape_spec(split_spec(tensor_shapes@, ',')[j]) is Ok,
{
    let pieces = split_char(tensor_shapes, ',');
    let ghost ps = split_spec(tensor_shapes@, ',');
    let ghost total = collect_shapes(ps);
    let n = pieces.len();
    let mut shapes: Vec<Vec<u32>> = Vec::new();
    let ghost mut acc: Seq<Seq<u32>> = Seq::empty();
    assert(ps.skip(0) =~= ps);
    for i in 0..n
        invariant
            n == ps.len(),
            ps == split_spec(tensor_shapes@, ','),
            total == collect_shapes(ps),
            pieces@.len() == ps.len(),
            forall|k: int| 0 <= k < pieces@.len() ==> #[trigger] pieces@[k]@ == ps[k],
            acc.len() == i,
            shapes@.len() == i,
            forall|k: int| 0 <= k < i ==> #[trigger] shapes@[k]@ == acc[k],
            total == prepend_ok(acc, collect_shapes(ps.skip(i as int))),
    {
        let ghost rest = ps.skip(i as int);
        assert(rest[0] == ps[i as int]);
        assert(rest.drop_first() =~= ps.skip(i + 1));
        match parse_tensor_shape(pieces[i].as_str()) {
            Ok(v) => {
                let ghost before = acc;
                proof {
                    acc = acc.push(v@);
                    assert(forall|r: Seq<Seq<u32>>|
                        before + (seq![v@] + r) =~= #[trigger] (before.push(v@) + r));
                }
                shapes.push(v);
            },
            Err(e) => {
                assert(pieces@[i as int]@ == ps[i as int]);
                assert(collect_shapes(rest) == Err::<Seq<Seq<u32>>, IntErrorKind>(e.kind));
                proof {
                    lemma_collect_shapes(ps);
                }
                return Err(TensorError::ParseIntError { source: e });
            },
        }
    }
    assert(ps.skip(n as int) =~= Seq::<Seq<char>>::empty());
    assert(acc + Seq::<Seq<u32>>::empty() =~= acc);
    proof {
        lemma_collect_shapes(ps);
    }
    Ok((n, shapes))
}

/// Parses a comma-separated list of tensor names: there is always at least one,
/// none holds a comma, and joined with commas they give the list back.
pub fn parse_tensor_names(tensor_names: &str) -> (res: Vec<String>)
    ensures
        res@.len() == split_spec(tensor_names@, ',').len(),
        forall|k: int|
            0 <= k < res@.len() ==> #[trigger] res@[k]@ == split_spec(tensor_names@, ',')[k],
        res@.len() >= 1,
        forall|k: int| 0 <= k < res@.len() ==> free_of(#[trigger] res@[k]@, ','),
        join_spec(res@.map_values(|p: String| p@), ',') == tensor_names@,
{
    let res = split_char(tensor_names, ',');
    proof {
        let ps = split_spec(tensor_names@, ',');
        lemma_split_len(tensor_names@, ',');
        lemma_split_pieces_free_of_sep(tensor_names@, ',');
        lemma_join_split(tensor_names@, ',');
        assert(res@.map_values(|p: String| p@) =~= ps);
        assert forall|k: int| 0 <= k < res@.len() implies free_of(#[trigger] res@[k]@, ',') by {
            assert(free_of(ps[k], ','));
        }
    }
    res
}

/// Reads one tensor type name: `"boolean"`, `"float32"`, `"float64"`, `"int32"` or
/// `"int64"`. Any other name is outside the contract (the pipeline stops on it).
pub fn parse_tensor_type(tensor_type: &str) -> (t: TensorType)
    requires
        is_tensor_type_name(tensor_type@),
    ensures
        tensor_type_name(t) == tensor_type@,
{
    let cs = chars_of(tensor_type);
    if chars_equal(&cs, "boolean") {
        TensorType::Boolean
    } else if chars_equal(&cs, "float32") {
        TensorType::Float32
    } else if chars_equal(&cs, "float64") {
        TensorType::Float64
    } else if chars_equal(&cs, "int32") {
        TensorType::Int32
    } else {
        assert(tensor_type@ == "int64"@) by {
            let t = choose|t: TensorType| tensor_type_name(t) == tensor_type@;
            assert(tensor_type_name(t) == tensor_type@);
        }
        TensorType::Int64
    }
}

/// Reads a comma-separated list of tensor type names; every name must be one of
/// the five that `parse_tensor_type` reads. The list always has at least one
/// entry, so this never fails.
pub fn parse_tensor_types(tensor_types: &str) -> (res: Result<Vec<TensorType>, TensorError>)
    requires
        forall|k: int|
            0 <= k < split_spec(tensor_types@, ',').len() ==> is_tensor_type_name(
                #[trigger] split_spec(tensor_types@, ',')[k],
            ),
    ensures
        res matches Ok(types) && types@.len() == split_spec(tensor_types@, ',').len() && (
        forall|k: int|
            0 <= k < types@.len() ==> tensor_type_name(#[trigger] types@[k]) == split_spec(
                tensor_types@,
                ',',
            )[k]),
{
    let pieces = split_char(tensor_types, ',');
    let ghost ps = split_spec(tensor_types@, ',');
    let n = pieces.len();
    let mut types: Vec<TensorType> = Vec::new();
    for i in 0..n
        invariant
            n == ps.len(),
            pieces@.len() == ps.len(),
            forall|k: int| 0 <= k < pieces@.len() ==> #[trigger] pieces@[k]@ == ps[k],
            forall|k: int| 0 <= k < ps.len() ==> is_tensor_type_name(#[trigger] ps[k]),
            types@.len() == i,
            forall|k: int| 0 <= k < i ==> tensor_type_name(#[trigger] types@[k]) == ps[k],
    {
        assert(pieces@[i as int]@ == ps[i as int]);
        let t = parse_tensor_type(pieces[i].as_str());
        types.push(t);
    }
    Ok(types)
}

impl TensorError {
    /// The error's message.
    pub fn message(&self) -> (m: String)
        ensures
            match self {
                TensorError::InvalidType { tensor_types } => m@ == "Failed to parse tensor types: "@
                    + tensor_types@,
                TensorError::InvalidShape { tensor_shapes } => m@
                    == "Failed to parse tensor shapes: "@ + tensor_shapes@,
                TensorError::TensorLength { tensor_shapes, tensor_types, tensor_names } => m@
                    == "Expected tensor_shapes="@ + tensor_shapes@ + ", tensor_types="@
                    + tensor_types@ + ", tensor_names="@ + tensor_names@
                    + " to be the same length."@,
                TensorError::ParseIntError { .. } => m@
                    == "Failed to parse integer from tensor shape slice"@,
            },
    {
        let mut m = String::new();
        match self {
            TensorError::InvalidType { tensor_types } => {
                m.append("Failed to parse tensor types: ");
                m.append(tensor_types.as_str());
            },
            TensorError::InvalidShape { tensor_shapes } => {
                m.append("Failed to parse tensor shapes: ");
                m.append(tensor_shapes.as_str());
            },
            TensorError::TensorLength { tensor_shapes, tensor_types, tensor_names } => {
                m.append("Expected tensor_shapes=");
                m.append(tensor_shapes.as_str());
                m.append(", tensor_types=");
                m.append(tensor_types.as_str());
                m.append(", tensor_names=");
                m.append(tensor_names.as_str());
                m.append(" to be the same length.");
            },
            TensorError::ParseIntError { .. } => {
                m.append("Failed to parse integer from tensor shape slice");
            },
        }
        m
    }
}

} // verus!
