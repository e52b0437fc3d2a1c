//! Labeled samples, batches, and the weight-snapshot record that the
//! engine exports and the storage collaborator persists.

use vstd::prelude::*;

verus! {

/// One numeric value, carried as an opaque 64-bit code. The arithmetic
/// that produces these codes runs in the unverified numeric layer; this
/// library moves, selects and stores them without interpreting them,
/// except that the code `0` is the numeric layer's zero.
pub type Scalar = u64;

/// Mathematical view of one labeled sample.
pub struct SampleView {
    pub target: u8,
    pub image: Seq<Scalar>,
}

/// One labeled example: a feature vector and its class label.
#[derive(Clone, Debug)]
pub struct DataSingle {
    pub target: u8,
    pub image: Vec<Scalar>,
}

impl View for DataSingle {
    type V = SampleView;

    open spec fn view(&self) -> SampleView {
        SampleView { target: self.target, image: self.image@ }
    }
}

/// A group of samples trained together in one step.
#[derive(Clone, Debug)]
pub struct Data {
    pub data: Vec<DataSingle>,
}

impl View for Data {
    type V = Seq<SampleView>;

    open spec fn view(&self) -> Seq<SampleView> {
        self.data@.map_values(|s: DataSingle| s@)
    }
}

/// A request for a block of samples of a given size.
#[derive(Clone, Copy, Debug)]
pub struct DataInfo {
    pub block: usize,
}

/// The weight snapshot: the two dense layers, row by row.
#[derive(Debug)]
pub struct Weights {
    pub weights: (Vec<Vec<Scalar>>, Vec<Vec<Scalar>>),
}

/// The rows of a weight matrix as a sequence of sequences.
pub open spec fn mat_of(m: Vec<Vec<Scalar>>) -> Seq<Seq<Scalar>> {
    m@.map_values(|row: Vec<Scalar>| row@)
}

/// `m` has exactly `rows` rows, each exactly `cols` wide.
pub open spec fn is_matrix(m: Seq<Seq<Scalar>>, rows: int, cols: int) -> bool {
    &&& m.len() == rows
    &&& forall|i: int| 0 <= i < rows ==> #[trigger] m[i].len() == cols
}

/// Copy a row of scalar codes.
pub fn copy_scalars(v: &Vec<Scalar>) -> (r: Vec<Scalar>)
    ensures
        r@ == v@,
{
    let mut r: Vec<Scalar> = Vec::new();
    let mut i: usize = 0;
    while i < v.len()
        invariant
            i <= v@.len(),
            r@ == v@.take(i as int),
        decreases v@.len() - i,
    {
        r.push(v[i]);
        i = i + 1;
        proof {
            assert(r@ =~= v@.take(i as int));
        }
    }
    proof {
        assert(r@ =~= v@);
    }
    r
}

/// Copy a weight matrix, row by row.
pub fn copy_matrix(m: &Vec<Vec<Scalar>>) -> (r: Vec<Vec<Scalar>>)
    ensures
        mat_of(r) == mat_of(*m),
{
    let mut r: Vec<Vec<Scalar>> = Vec::new();
    let mut i: usize = 0;
    while i < m.len()
        invariant
            i <= m@.len(),
            r@.len() == i,
            forall|j: int| 0 <= j < i ==> #[trigger] r@[j]@ == m@[j]@,
        decreases m@.len() - i,
    {
        let row = copy_scalars(&m[i]);
        r.push(row);
        i = i + 1;
    }
    proof {
        assert(mat_of(r) =~= mat_of(*m));
    }
    r
}

/// Copy one sample.
pub fn copy_sample(s: &DataSingle) -> (r: DataSingle)
    ensures
        r@ == s@,
{
    DataSingle { target: s.target, image: copy_scalars(&s.image) }
}

} // verus!
