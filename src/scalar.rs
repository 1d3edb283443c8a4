//! Scalar kinds and their columnar device encoding.

use vstd::prelude::*;
use vstd::arithmetic::div_mod::lemma_fundamental_div_mod;
use crate::bytes::{
    le_bytes, le_value, pow256, push_le, read_le, lemma_le_round_trip, lemma_pow256_eight,
};

verus! {

/// The byte columns of device buffers, as sequences of bytes.
pub open spec fn cols_view(b: Seq<Vec<u8>>) -> Seq<Seq<u8>> {
    b.map_values(|c: Vec<u8>| c@)
}

/// Each column of `cols` followed by the matching column of `extra`.
pub open spec fn append_cols(cols: Seq<Seq<u8>>, extra: Seq<Seq<u8>>) -> Seq<Seq<u8>> {
    Seq::new(cols.len(), |k: int| cols[k] + extra[k])
}

/// A value that travels to and from the device in columnar form: component `k` of the
/// value is stored little-endian in column `k`, at a fixed stride per column.
pub trait OnDevice: Sized {
    /// How many columns a value occupies.
    spec fn spec_components() -> nat;

    /// The stride in bytes of column `k`.
    spec fn spec_width(k: int) -> nat;

    /// The bytes of one value over all its columns.
    spec fn spec_size() -> nat;

    /// What writing a value appends to each of its columns.
    spec fn spec_encode(self) -> Seq<Seq<u8>>;

    /// The value found at position `index` of the columns `cols`.
    spec fn spec_decode(cols: Seq<Seq<u8>>, index: int) -> Self;

    proof fn lemma_shape(self)
        ensures
            1 <= Self::spec_components() <= 4,
            self.spec_encode().len() == Self::spec_components(),
            forall|k: int|
                0 <= k < Self::spec_components() ==> #[trigger] self.spec_encode()[k].len()
                    == Self::spec_width(k),
            forall|k: int| 0 <= k < Self::spec_components() ==> 1 <= #[trigger] Self::spec_width(k) <= 8,
    ;

    /// Writing a value after `index` values and reading position `index` gives it back.
    proof fn lemma_round_trip(self, cols: Seq<Seq<u8>>, index: int)
        requires
            0 <= index,
            cols.len() == Self::spec_components(),
            forall|k: int|
                0 <= k < Self::spec_components() ==> (#[trigger] cols[k]).len() == index
                    * Self::spec_width(k),
        ensures
            Self::spec_decode(append_cols(cols, self.spec_encode()), index) == self,
    ;

    fn components() -> (r: usize)
        ensures
            r == Self::spec_components(),
    ;

    fn size_of() -> (r: usize)
        ensures
            r == Self::spec_size(),
    ;

    /// Appends the value to columns `first ..` of `buffers`; other columns are untouched.
    fn write(self, buffers: &mut Vec<Vec<u8>>, first: usize)
        requires
            first + Self::spec_components() <= old(buffers)@.len(),
        ensures
            final(buffers)@.len() == old(buffers)@.len(),
            forall|k: int|
                0 <= k < old(buffers)@.len() && !(first <= k < first + Self::spec_components())
                    ==> #[trigger] final(buffers)@[k]@ == old(buffers)@[k]@,
            forall|k: int|
                first <= k < first + Self::spec_components() ==> #[trigger] final(buffers)@[k]@
                    == old(buffers)@[k]@ + self.spec_encode()[k - first],
    ;

    /// Reads the value at position `index` from columns `first ..` of `buffers`.
    fn read(buffers: &Vec<Vec<u8>>, first: usize, index: usize) -> (r: Self)
        requires
            first + Self::spec_components() <= buffers@.len(),
            forall|k: int|
                0 <= k < Self::spec_components() ==> (index + 1) * Self::spec_width(k) <= (
                #[trigger] buffers@[first + k])@.len(),
        ensures
            r == Self::spec_decode(
                cols_view(buffers@).subrange(first as int, first + Self::spec_components()),
                index as int,
            ),
    ;
}

/// Reading back what was written: after `index` values of a kind are in their columns,
/// writing one more and reading position `index` gives that value, for every scalar kind
/// and every tuple of two to four of them.
pub proof fn lemma_write_then_read<T: OnDevice>(x: T, cols: Seq<Seq<u8>>, index: int)
    requires
        0 <= index,
        cols.len() == T::spec_components(),
        forall|k: int|
            0 <= k < T::spec_components() ==> (#[trigger] cols[k]).len() == index * T::spec_width(k),
    ensures
        T::spec_decode(append_cols(cols, x.spec_encode()), index) == x,
{
    x.lemma_round_trip(cols, index);
}

/// A kind that occupies a single column of at most eight bytes per value.
pub trait DeviceColumn: OnDevice {
    proof fn lemma_single()
        ensures
            Self::spec_components() == 1,
            1 <= Self::spec_width(0) <= 8,
            Self::spec_size() == Self::spec_width(0),
    ;
}

/// The fixed-width round trip through one column.
pub proof fn lemma_column_round_trip(cols: Seq<Seq<u8>>, index: int, v: nat, w: nat)
    requires
        0 <= index,
        cols.len() == 1,
        cols[0].len() == index * w,
        v < pow256(w),
    ensures
        le_value(append_cols(cols, seq![le_bytes(v, w)])[0].subrange(index * w, index * w + w))
            == v,
{
    let c = append_cols(cols, seq![le_bytes(v, w)])[0];
    assert(c.subrange(index * w, index * w + w) =~= le_bytes(v, w));
    lemma_le_round_trip(v, w);
}

impl OnDevice for u8 {
    open spec fn spec_components() -> nat {
        1
    }

    open spec fn spec_width(k: int) -> nat {
        1
    }

    open spec fn spec_size() -> nat {
        1
    }

    open spec fn spec_encode(self) -> Seq<Seq<u8>> {
        seq![le_bytes(self as nat, 1)]
    }

    open spec fn spec_decode(cols: Seq<Seq<u8>>, index: int) -> Self {
        le_value(cols[0].subrange(index * 1, index * 1 + 1)) as u8
    }

    proof fn lemma_shape(self) {
    }

    proof fn lemma_round_trip(self, cols: Seq<Seq<u8>>, index: int) {
        lemma_pow256_eight();
        lemma_column_round_trip(cols, index, self as nat, 1);
    }

    fn components() -> (r: usize) {
        1
    }

    fn size_of() -> (r: usize) {
        1
    }

    fn write(self, buffers: &mut Vec<Vec<u8>>, first: usize) {
        proof {
            lemma_pow256_eight();
        }
        push_le(&mut buffers[first], self as u64, 1);
    }

    fn read(buffers: &Vec<Vec<u8>>, first: usize, index: usize) -> (r: Self) {
        let col = &buffers[first];
        let n = col.len();
        let ghost k0: int = 0;
        assert(buffers@[first + k0] == col);
        assert((index + 1) * Self::spec_width(k0) <= buffers@[first + k0]@.len());
        assert(cols_view(buffers@).subrange(first as int, first + 1)[0] == col@);
        assert((index + 1) * 1 == index * 1 + 1);
        assert(index * 1 + 1 <= n);
        read_le(col, index * 1, 1) as u8
    }
}

impl DeviceColumn for u8 {
    proof fn lemma_single() {
    }
}

impl OnDevice for u16 {
    open spec fn spec_components() -> nat {
        1
    }

    open spec fn spec_width(k: int) -> nat {
        2
    }

    open spec fn spec_size() -> nat {
        2
    }

    open spec fn spec_encode(self) -> Seq<Seq<u8>> {
        seq![le_bytes(self as nat, 2)]
    }

    open spec fn spec_decode(cols: Seq<Seq<u8>>, index: int) -> Self {
        le_value(cols[0].subrange(index * 2, index * 2 + 2)) as u16
    }

    proof fn lemma_shape(self) {
    }

    proof fn lemma_round_trip(self, cols: Seq<Seq<u8>>, index: int) {
        lemma_pow256_eight();
        lemma_column_round_trip(cols, index, self as nat, 2);
    }

    fn components() -> (r: usize) {
        1
    }

    fn size_of() -> (r: usize) {
        2
    }

    fn write(self, buffers: &mut Vec<Vec<u8>>, first: usize) {
        proof {
            lemma_pow256_eight();
        }
        push_le(&mut buffers[first], self as u64, 2);
    }

    fn read(buffers: &Vec<Vec<u8>>, first: usize, index: usize) -> (r: Self) {
        let col = &buffers[first];
        let n = col.len();
        let ghost k0: int = 0;
        assert(buffers@[first + k0] == col);
        assert((index + 1) * Self::spec_width(k0) <= buffers@[first + k0]@.len());
        assert(cols_view(buffers@).subrange(first as int, first + 1)[0] == col@);
        assert((index + 1) * 2 == index * 2 + 2);
        assert(index * 2 + 2 <= n);
        read_le(col, index * 2, 2) as u16
    }
}

impl DeviceColumn for u16 {
    proof fn lemma_single() {
    }
}

impl OnDevice for u32 {
    open spec fn spec_components() -> nat {
        1
    }

    open spec fn spec_width(k: int) -> nat {
        4
    }

    open spec fn spec_size() -> nat {
        4
    }

    open spec fn spec_encode(self) -> Seq<Seq<u8>> {
        seq![le_bytes(self as nat, 4)]
    }

    open spec fn spec_decode(cols: Seq<Seq<u8>>, index: int) -> Self {
        le_value(cols[0].subrange(index * 4, index * 4 + 4)) as u32
    }

    proof fn lemma_shape(self) {
    }

    proof fn lemma_round_trip(self, cols: Seq<Seq<u8>>, index: int) {
        lemma_pow256_eight();
        lemma_column_round_trip(cols, index, self as nat, 4);
    }

    fn components() -> (r: usize) {
        1
    }

    fn size_of() -> (r: usize) {
        4
    }

    fn write(self, buffers: &mut Vec<Vec<u8>>, first: usize) {
        proof {
            lemma_pow256_eight();
        }
        push_le(&mut buffers[first], self as u64, 4);
    }

    fn read(buffers: &Vec<Vec<u8>>, first: usize, index: usize) -> (r: Self) {
        let col = &buffers[first];
        let n = col.len();
        let ghost k0: int = 0;
        assert(buffers@[first + k0] == col);
        assert((index + 1) * Self::spec_width(k0) <= buffers@[first + k0]@.len());
        assert(cols_view(buffers@).subrange(first as int, first + 1)[0] == col@);
        assert((index + 1) * 4 == index * 4 + 4);
        assert(index * 4 + 4 <= n);
        read_le(col, index * 4, 4) as u32
    }
}

impl DeviceColumn for u32 {
    proof fn lemma_single() {
    }
}

impl OnDevice for u64 {
    open spec fn spec_components() -> nat {
        1
    }

    open spec fn spec_width(k: int) -> nat {
        8
    }

    open spec fn spec_size() -> nat {
        8
    }

    open spec fn spec_encode(self) -> Seq<Seq<u8>> {
        seq![le_bytes(self as nat, 8)]
    }

    open spec fn spec_decode(cols: Seq<Seq<u8>>, index: int) -> Self {
        le_value(cols[0].subrange(index * 8, index * 8 + 8)) as u64
    }

    proof fn lemma_shape(self) {
    }

    proof fn lemma_round_trip(self, cols: Seq<Seq<u8>>, index: int) {
        lemma_pow256_eight();
        lemma_column_round_trip(cols, index, self as nat, 8);
    }

    fn components() -> (r: usize) {
        1
    }

    fn size_of() -> (r: usize) {
        8
    }

    fn write(self, buffers: &mut Vec<Vec<u8>>, first: usize) {
        proof {
            lemma_pow256_eight();
        }
        push_le(&mut buffers[first], self as u64, 8);
    }

    fn read(buffers: &Vec<Vec<u8>>, first: usize, index: usize) -> (r: Self) {
        let col = &buffers[first];
        let n = col.len();
        let ghost k0: int = 0;
        assert(buffers@[first + k0] == col);
        assert((index + 1) * Self::spec_width(k0) <= buffers@[first + k0]@.len());
        assert(cols_view(buffers@).subrange(first as int, first + 1)[0] == col@);
        assert((index + 1) * 8 == index * 8 + 8);
        assert(index * 8 + 8 <= n);
        read_le(col, index * 8, 8) as u64
    }
}

impl DeviceColumn for u64 {
    proof fn lemma_single() {
    }
}

impl OnDevice for i8 {
    open spec fn spec_components() -> nat {
        1
    }

    open spec fn spec_width(k: int) -> nat {
        1
    }

    open spec fn spec_size() -> nat {
        1
    }

    open spec fn spec_encode(self) -> Seq<Seq<u8>> {
        seq![le_bytes((self as u8) as nat, 1)]
    }

    open spec fn spec_decode(cols: Seq<Seq<u8>>, index: int) -> Self {
        (le_value(cols[0].subrange(index * 1, index * 1 + 1)) as u8) as i8
    }

    proof fn lemma_shape(self) {
    }

    proof fn lemma_round_trip(self, cols: Seq<Seq<u8>>, index: int) {
        lemma_pow256_eight();
        let x = self;
        assert(((x as u8) as i8) == x) by (bit_vector);
        lemma_column_round_trip(cols, index, (self as u8) as nat, 1);
    }

    fn components() -> (r: usize) {
        1
    }

    fn size_of() -> (r: usize) {
        1
    }

    fn write(self, buffers: &mut Vec<Vec<u8>>, first: usize) {
        proof {
            lemma_pow256_eight();
        }
        push_le(&mut buffers[first], (self as u8) as u64, 1);
    }

    fn read(buffers: &Vec<Vec<u8>>, first: usize, index: usize) -> (r: Self) {
        let col = &buffers[first];
        let n = col.len();
        let ghost k0: int = 0;
        assert(buffers@[first + k0] == col);
        assert((index + 1) * Self::spec_width(k0) <= buffers@[first + k0]@.len());
        assert(cols_view(buffers@).subrange(first as int, first + 1)[0] == col@);
        assert((index + 1) * 1 == index * 1 + 1);
        assert(index * 1 + 1 <= n);
        (read_le(col, index * 1, 1) as u8) as i8
    }
}

impl DeviceColumn for i8 {
    proof fn lemma_single() {
    }
}

impl OnDevice for i16 {
    open spec fn spec_components() -> nat {
        1
    }

    open spec fn spec_width(k: int) -> nat {
        2
    }

    open spec fn spec_size() -> nat {
        2
    }

    open spec fn spec_encode(self) -> Seq<Seq<u8>> {
        seq![le_bytes((self as u16) as nat, 2)]
    }

    open spec fn spec_decode(cols: Seq<Seq<u8>>, index: int) -> Self {
        (le_value(cols[0].subrange(index * 2, index * 2 + 2)) as u16) as i16
    }

    proof fn lemma_shape(self) {
    }

    proof fn lemma_round_trip(self, cols: Seq<Seq<u8>>, index: int) {
        lemma_pow256_eight();
        let x = self;
        assert(((x as u16) as i16) == x) by (bit_vector);
        lemma_column_round_trip(cols, index, (self as u16) as nat, 2);
    }

    fn components() -> (r: usize) {
        1
    }

    fn size_of() -> (r: usize) {
        2
    }

    fn write(self, buffers: &mut Vec<Vec<u8>>, first: usize) {
        proof {
            lemma_pow256_eight();
        }
        push_le(&mut buffers[first], (self as u16) as u64, 2);
    }

    fn read(buffers: &Vec<Vec<u8>>, first: usize, index: usize) -> (r: Self) {
        let col = &buffers[first];
        let n = col.len();
        let ghost k0: int = 0;
        assert(buffers@[first + k0] == col);
        assert((index + 1) * Self::spec_width(k0) <= buffers@[first + k0]@.len());
        assert(cols_view(buffers@).subrange(first as int, first + 1)[0] == col@);
        assert((index + 1) * 2 == index * 2 + 2);
        assert(index * 2 + 2 <= n);
        (read_le(col, index * 2, 2) as u16) as i16
    }
}

impl DeviceColumn for i16 {
    proof fn lemma_single() {
    }
}

impl OnDevice for i32 {
    open spec fn spec_components() -> nat {
        1
    }

    open spec fn spec_width(k: int) -> nat {
        4
    }

    open spec fn spec_size() -> nat {
        4
    }

    open spec fn spec_encode(self) -> Seq<Seq<u8>> {
        seq![le_bytes((self as u32) as nat, 4)]
    }

    open spec fn spec_decode(cols: Seq<Seq<u8>>, index: int) -> Self {
        (le_value(cols[0].subrange(index * 4, index * 4 + 4)) as u32) as i32
    }

    proof fn lemma_shape(self) {
    }

    proof fn lemma_round_trip(self, cols: Seq<Seq<u8>>, index: int) {
        lemma_pow256_eight();
        let x = self;
        assert(((x as u32) as i32) == x) by (bit_vector);
        lemma_column_round_trip(cols, index, (self as u32) as nat, 4);
    }

    fn components() -> (r: usize) {
        1
    }

    fn size_of() -> (r: usize) {
        4
    }

    fn write(self, buffers: &mut Vec<Vec<u8>>, first: usize) {
        proof {
            lemma_pow256_eight();
        }
        push_le(&mut buffers[first], (self as u32) as u64, 4);
    }

    fn read(buffers: &Vec<Vec<u8>>, first: usize, index: usize) -> (r: Self) {
        let col = &buffers[first];
        let n = col.len();
        let ghost k0: int = 0;
        assert(buffers@[first + k0] == col);
        assert((index + 1) * Self::spec_width(k0) <= buffers@[first + k0]@.len());
        assert(cols_view(buffers@).subrange(first as int, first + 1)[0] == col@);
        assert((index + 1) * 4 == index * 4 + 4);
        assert(index * 4 + 4 <= n);
        (read_le(col, index * 4, 4) as u32) as i32
    }
}

impl DeviceColumn for i32 {
    proof fn lemma_single() {
    }
}

impl OnDevice for i64 {
    open spec fn spec_components() -> nat {
        1
    }

    open spec fn spec_width(k: int) -> nat {
        8
    }

    open spec fn spec_size() -> nat {
        8
    }

    open spec fn spec_encode(self) -> Seq<Seq<u8>> {
        seq![le_bytes((self as u64) as nat, 8)]
    }

    open spec fn spec_decode(cols: Seq<Seq<u8>>, index: int) -> Self {
        (le_value(cols[0].subrange(index * 8, index * 8 + 8)) as u64) as i64
    }

    proof fn lemma_shape(self) {
    }

    proof fn lemma_round_trip(self, cols: Seq<Seq<u8>>, index: int) {
        lemma_pow256_eight();
        let x = self;
        assert(((x as u64) as i64) == x) by (bit_vector);
        lemma_column_round_trip(cols, index, (self as u64) as nat, 8);
    }

    fn components() -> (r: usize) {
        1
    }

    fn size_of() -> (r: usize) {
        8
    }

    fn write(self, buffers: &mut Vec<Vec<u8>>, first: usize) {
        proof {
            lemma_pow256_eight();
        }
        push_le(&mut buffers[first], (self as u64) as u64, 8);
    }

    fn read(buffers: &Vec<Vec<u8>>, first: usize, index: usize) -> (r: Self) {
        let col = &buffers[first];
        let n = col.len();
        let ghost k0: int = 0;
        assert(buffers@[first + k0] == col);
        assert((index + 1) * Self::spec_width(k0) <= buffers@[first + k0]@.len());
        assert(cols_view(buffers@).subrange(first as int, first + 1)[0] == col@);
        assert((index + 1) * 8 == index * 8 + 8);
        assert(index * 8 + 8 <= n);
        (read_le(col, index * 8, 8) as u64) as i64
    }
}

impl DeviceColumn for i64 {
    proof fn lemma_single() {
    }
}

impl OnDevice for bool {
    open spec fn spec_components() -> nat {
        1
    }

    open spec fn spec_width(k: int) -> nat {
        1
    }

    open spec fn spec_size() -> nat {
        1
    }

    open spec fn spec_encode(self) -> Seq<Seq<u8>> {
        seq![le_bytes(if self { 1 } else { 0 }, 1)]
    }

    open spec fn spec_decode(cols: Seq<Seq<u8>>, index: int) -> Self {
        le_value(cols[0].subrange(index, index + 1)) != 0
    }

    proof fn lemma_shape(self) {
    }

    proof fn lemma_round_trip(self, cols: Seq<Seq<u8>>, index: int) {
        lemma_pow256_eight();
        lemma_column_round_trip(cols, index, if self { 1 } else { 0 }, 1);
    }

    fn components() -> (r: usize) {
        1
    }

    fn size_of() -> (r: usize) {
        1
    }

    fn write(self, buffers: &mut Vec<Vec<u8>>, first: usize) {
        proof {
            lemma_pow256_eight();
        }
        let v: u64 = if self { 1 } else { 0 };
        push_le(&mut buffers[first], v, 1);
    }

    fn read(buffers: &Vec<Vec<u8>>, first: usize, index: usize) -> (r: Self) {
        let col = &buffers[first];
        let n = col.len();
        let ghost k0: int = 0;
        assert(buffers@[first + k0] == col);
        assert((index + 1) * Self::spec_width(k0) <= buffers@[first + k0]@.len());
        assert(cols_view(buffers@).subrange(first as int, first + 1)[0] == col@);
        assert((index + 1) * 1 == index + 1);
        assert(index + 1 <= n);
        read_le(col, index, 1) != 0
    }
}

impl DeviceColumn for bool {
    proof fn lemma_single() {
    }
}

/// An IEEE half-precision value, held as its bit pattern.
#[derive(Clone, Copy, PartialEq, Eq, Debug, Structural)]
pub struct F16(pub u16);

impl OnDevice for F16 {
    open spec fn spec_components() -> nat {
        1
    }

    open spec fn spec_width(k: int) -> nat {
        2
    }

    open spec fn spec_size() -> nat {
        2
    }

    open spec fn spec_encode(self) -> Seq<Seq<u8>> {
        seq![le_bytes(self.0 as nat, 2)]
    }

    open spec fn spec_decode(cols: Seq<Seq<u8>>, index: int) -> Self {
        F16(le_value(cols[0].subrange(index * 2, index * 2 + 2)) as u16)
    }

    proof fn lemma_shape(self) {
    }

    proof fn lemma_round_trip(self, cols: Seq<Seq<u8>>, index: int) {
        lemma_pow256_eight();
        lemma_column_round_trip(cols, index, self.0 as nat, 2);
    }

    fn components() -> (r: usize) {
        1
    }

    fn size_of() -> (r: usize) {
        2
    }

    fn write(self, buffers: &mut Vec<Vec<u8>>, first: usize) {
        proof {
            lemma_pow256_eight();
        }
        push_le(&mut buffers[first], self.0 as u64, 2);
    }

    fn read(buffers: &Vec<Vec<u8>>, first: usize, index: usize) -> (r: Self) {
        let col = &buffers[first];
        let n = col.len();
        let ghost k0: int = 0;
        assert(buffers@[first + k0] == col);
        assert((index + 1) * Self::spec_width(k0) <= buffers@[first + k0]@.len());
        assert(cols_view(buffers@).subrange(first as int, first + 1)[0] == col@);
        assert((index + 1) * 2 == index * 2 + 2);
        assert(index * 2 + 2 <= n);
        F16(read_le(col, index * 2, 2) as u16)
    }
}

impl DeviceColumn for F16 {
    proof fn lemma_single() {
    }
}

/// An IEEE single-precision value, held as its bit pattern.
#[derive(Clone, Copy, PartialEq, Eq, Debug, Structural)]
pub struct F32(pub u32);

impl OnDevice for F32 {
    open spec fn spec_components() -> nat {
        1
    }

    open spec fn spec_width(k: int) -> nat {
        4
    }

    open spec fn spec_size() -> nat {
        4
    }

    open spec fn spec_encode(self) -> Seq<Seq<u8>> {
        seq![le_bytes(self.0 as nat, 4)]
    }

    open spec fn spec_decode(cols: Seq<Seq<u8>>, index: int) -> Self {
        F32(le_value(cols[0].subrange(index * 4, index * 4 + 4)) as u32)
    }

    proof fn lemma_shape(self) {
    }

    proof fn lemma_round_trip(self, cols: Seq<Seq<u8>>, index: int) {
        lemma_pow256_eight();
        lemma_column_round_trip(cols, index, self.0 as nat, 4);
    }

    fn components() -> (r: usize) {
        1
    }

    fn size_of() -> (r: usize) {
        4
    }

    fn write(self, buffers: &mut Vec<Vec<u8>>, first: usize) {
        proof {
            lemma_pow256_eight();
        }
        push_le(&mut buffers[first], self.0 as u64, 4);
    }

    fn read(buffers: &Vec<Vec<u8>>, first: usize, index: usize) -> (r: Self) {
        let col = &buffers[first];
        let n = col.len();
        let ghost k0: int = 0;
        assert(buffers@[first + k0] == col);
        assert((index + 1) * Self::spec_width(k0) <= buffers@[first + k0]@.len());
        assert(cols_view(buffers@).subrange(first as int, first + 1)[0] == col@);
        assert((index + 1) * 4 == index * 4 + 4);
        assert(index * 4 + 4 <= n);
        F32(read_le(col, index * 4, 4) as u32)
    }
}

impl DeviceColumn for F32 {
    proof fn lemma_single() {
    }
}

/// An IEEE double-precision value, held as its bit pattern.
#[derive(Clone, Copy, PartialEq, Eq, Debug, Structural)]
pub struct F64(pub u64);

impl OnDevice for F64 {
    open spec fn spec_components() -> nat {
        1
    }

    open spec fn spec_width(k: int) -> nat {
        8
    }

    open spec fn spec_size() -> nat {
        8
    }

    open spec fn spec_encode(self) -> Seq<Seq<u8>> {
        seq![le_bytes(self.0 as nat, 8)]
    }

    open spec fn spec_decode(cols: Seq<Seq<u8>>, index: int) -> Self {
        F64(le_value(cols[0].subrange(index * 8, index * 8 + 8)) as u64)
    }

    proof fn lemma_shape(self) {
    }

    proof fn lemma_round_trip(self, cols: Seq<Seq<u8>>, index: int) {
        lemma_pow256_eight();
        lemma_column_round_trip(cols, index, self.0 as nat, 8);
    }

    fn components() -> (r: usize) {
        1
    }

    fn size_of() -> (r: usize) {
        8
    }

    fn write(self, buffers: &mut Vec<Vec<u8>>, first: usize) {
        proof {
            lemma_pow256_eight();
        }
        push_le(&mut buffers[first], self.0 as u64, 8);
    }

    fn read(buffers: &Vec<Vec<u8>>, first: usize, index: usize) -> (r: Self) {
        let col = &buffers[first];
        let n = col.len();
        let ghost k0: int = 0;
        assert(buffers@[first + k0] == col);
        assert((index + 1) * Self::spec_width(k0) <= buffers@[first + k0]@.len());
        assert(cols_view(buffers@).subrange(first as int, first + 1)[0] == col@);
        assert((index + 1) * 8 == index * 8 + 8);
        assert(index * 8 + 8 <= n);
        F64(read_le(col, index * 8, 8) as u64)
    }
}

impl DeviceColumn for F64 {
    proof fn lemma_single() {
    }
}

/// An 8-bit float with four exponent and three mantissa bits, held as its bit pattern.
#[derive(Clone, Copy, PartialEq, Eq, Debug, Structural)]
pub struct E4M3(pub u8);

impl OnDevice for E4M3 {
    open spec fn spec_components() -> nat {
        1
    }

    open spec fn spec_width(k: int) -> nat {
        1
    }

    open spec fn spec_size() -> nat {
        1
    }

    open spec fn spec_encode(self) -> Seq<Seq<u8>> {
        seq![le_bytes(self.0 as nat, 1)]
    }

    open spec fn spec_decode(cols: Seq<Seq<u8>>, index: int) -> Self {
        E4M3(le_value(cols[0].subrange(index * 1, index * 1 + 1)) as u8)
    }

    proof fn lemma_shape(self) {
    }

    proof fn lemma_round_trip(self, cols: Seq<Seq<u8>>, index: int) {
        lemma_pow256_eight();
        lemma_column_round_trip(cols, index, self.0 as nat, 1);
    }

    fn components() -> (r: usize) {
        1
    }

    fn size_of() -> (r: usize) {
        1
    }

    fn write(self, buffers: &mut Vec<Vec<u8>>, first: usize) {
        proof {
            lemma_pow256_eight();
        }
        push_le(&mut buffers[first], self.0 as u64, 1);
    }

    fn read(buffers: &Vec<Vec<u8>>, first: usize, index: usize) -> (r: Self) {
        let col = &buffers[first];
        let n = col.len();
        let ghost k0: int = 0;
        assert(buffers@[first + k0] == col);
        assert((index + 1) * Self::spec_width(k0) <= buffers@[first + k0]@.len());
        assert(cols_view(buffers@).subrange(first as int, first + 1)[0] == col@);
        assert((index + 1) * 1 == index * 1 + 1);
        assert(index * 1 + 1 <= n);
        E4M3(read_le(col, index * 1, 1) as u8)
    }
}

impl DeviceColumn for E4M3 {
    proof fn lemma_single() {
    }
}

/// An 8-bit float with five exponent and two mantissa bits, held as its bit pattern.
#[derive(Clone, Copy, PartialEq, Eq, Debug, Structural)]
pub struct E5M2(pub u8);

impl OnDevice for E5M2 {
    open spec fn spec_components() -> nat {
        1
    }

    open spec fn spec_width(k: int) -> nat {
        1
    }

    open spec fn spec_size() -> nat {
        1
    }

    open spec fn spec_encode(self) -> Seq<Seq<u8>> {
        seq![le_bytes(self.0 as nat, 1)]
    }

    open spec fn spec_decode(cols: Seq<Seq<u8>>, index: int) -> Self {
        E5M2(le_value(cols[0].subrange(index * 1, index * 1 + 1)) as u8)
    }

    proof fn lemma_shape(self) {
    }

    proof fn lemma_round_trip(self, cols: Seq<Seq<u8>>, index: int) {
        lemma_pow256_eight();
        lemma_column_round_trip(cols, index, self.0 as nat, 1);
    }

    fn components() -> (r: usize) {
        1
    }

    fn size_of() -> (r: usize) {
        1
    }

    fn write(self, buffers: &mut Vec<Vec<u8>>, first: usize) {
        proof {
            lemma_pow256_eight();
        }
        push_le(&mut buffers[first], self.0 as u64, 1);
    }

    fn read(buffers: &Vec<Vec<u8>>, first: usize, index: usize) -> (r: Self) {
        let col = &buffers[first];
        let n = col.len();
        let ghost k0: int = 0;
        assert(buffers@[first + k0] == col);
        assert((index + 1) * Self::spec_width(k0) <= buffers@[first + k0]@.len());
        assert(cols_view(buffers@).subrange(first as int, first + 1)[0] == col@);
        assert((index + 1) * 1 == index * 1 + 1);
        assert(index * 1 + 1 <= n);
        E5M2(read_le(col, index * 1, 1) as u8)
    }
}

impl DeviceColumn for E5M2 {
    proof fn lemma_single() {
    }
}

impl<X: DeviceColumn, Y: DeviceColumn> OnDevice for (X, Y) {
    open spec fn spec_components() -> nat {
        2
    }

    open spec fn spec_width(k: int) -> nat {
        if k == 0 {
            X::spec_width(0)
        } else {
            Y::spec_width(0)
        }
    }

    open spec fn spec_size() -> nat {
        X::spec_size() + Y::spec_size()
    }

    open spec fn spec_encode(self) -> Seq<Seq<u8>> {
        seq![self.0.spec_encode()[0], self.1.spec_encode()[0]]
    }

    open spec fn spec_decode(cols: Seq<Seq<u8>>, index: int) -> Self {
        (X::spec_decode(cols.subrange(0, 1), index), Y::spec_decode(cols.subrange(1, 2), index))
    }

    proof fn lemma_shape(self) {
        X::lemma_single();
        self.0.lemma_shape();
        Y::lemma_single();
        self.1.lemma_shape();
    }

    proof fn lemma_round_trip(self, cols: Seq<Seq<u8>>, index: int) {
        X::lemma_single();
        self.0.lemma_shape();
        Y::lemma_single();
        self.1.lemma_shape();
        let all = append_cols(cols, self.spec_encode());
        assert(all.subrange(0, 1) =~= append_cols(cols.subrange(0, 1), self.0.spec_encode()));
        assert(cols.subrange(0, 1)[0] == cols[0]);
        self.0.lemma_round_trip(cols.subrange(0, 1), index);
        assert(all.subrange(1, 2) =~= append_cols(cols.subrange(1, 2), self.1.spec_encode()));
        assert(cols.subrange(1, 2)[0] == cols[1]);
        self.1.lemma_round_trip(cols.subrange(1, 2), index);
    }

    fn components() -> (r: usize) {
        2
    }

    fn size_of() -> (r: usize) {
        proof {
            X::lemma_single();
            Y::lemma_single();
        }
        X::size_of() + Y::size_of()
    }

    fn write(self, buffers: &mut Vec<Vec<u8>>, first: usize) {
        proof {
            X::lemma_single();
            self.0.lemma_shape();
            Y::lemma_single();
            self.1.lemma_shape();
        }
        let nb = buffers.len();
        let ghost b0 = buffers@;
        self.0.write(buffers, first + 0);
        let ghost b1 = buffers@;
        self.1.write(buffers, first + 1);
        let ghost b2 = buffers@;
        proof {
            let c0: int = first + 0;
            assert(b1[c0]@ == b0[c0]@ + self.0.spec_encode()[0]);
            assert(b2[c0]@ == b1[c0]@);
            assert(buffers@[c0]@ == b0[c0]@ + self.spec_encode()[c0 - first]);
            let c1: int = first + 1;
            assert(b2[c1]@ == b1[c1]@ + self.1.spec_encode()[0]);
            assert(buffers@[c1]@ == b0[c1]@ + self.spec_encode()[c1 - first]);
            assert forall|k: int|
                0 <= k < b0.len() && !(first <= k < first + 2) implies #[trigger] buffers@[k]@ == b0[k]@ by {
                assert(b1[k]@ == b0[k]@);
                assert(b2[k]@ == b1[k]@);
            }
        }
    }

    fn read(buffers: &Vec<Vec<u8>>, first: usize, index: usize) -> (r: Self) {
        proof {
            X::lemma_single();
            Y::lemma_single();
        }
        let nb = buffers.len();
        let ghost k0: int = 0;
        assert((index + 1) * Self::spec_width(k0) <= buffers@[first + k0]@.len());
        let x = X::read(buffers, first + 0, index);
        assert(cols_view(buffers@).subrange(first as int, first + 2).subrange(0, 1) =~= cols_view(buffers@).subrange(first + 0, first + 1));
        let ghost k1: int = 1;
        assert((index + 1) * Self::spec_width(k1) <= buffers@[first + k1]@.len());
        let y = Y::read(buffers, first + 1, index);
        assert(cols_view(buffers@).subrange(first as int, first + 2).subrange(1, 2) =~= cols_view(buffers@).subrange(first + 1, first + 2));
        (x, y)
    }
}

impl<X: DeviceColumn, Y: DeviceColumn, Z: DeviceColumn> OnDevice for (X, Y, Z) {
    open spec fn spec_components() -> nat {
        3
    }

    open spec fn spec_width(k: int) -> nat {
        if k == 0 {
            X::spec_width(0)
        } else if k == 1 {
            Y::spec_width(0)
        } else {
            Z::spec_width(0)
        }
    }

    open spec fn spec_size() -> nat {
        X::spec_size() + Y::spec_size() + Z::spec_size()
    }

    open spec fn spec_encode(self) -> Seq<Seq<u8>> {
        seq![self.0.spec_encode()[0], self.1.spec_encode()[0], self.2.spec_encode()[0]]
    }

    open spec fn spec_decode(cols: Seq<Seq<u8>>, index: int) -> Self {
        (X::spec_decode(cols.subrange(0, 1), index), Y::spec_decode(cols.subrange(1, 2), index), Z::spec_decode(cols.subrange(2, 3), index))
    }

    proof fn lemma_shape(self) {
        X::lemma_single();
        self.0.lemma_shape();
        Y::lemma_single();
        self.1.lemma_shape();
        Z::lemma_single();
        self.2.lemma_shape();
    }

    proof fn lemma_round_trip(self, cols: Seq<Seq<u8>>, index: int) {
        X::lemma_single();
        self.0.lemma_shape();
        Y::lemma_single();
        self.1.lemma_shape();
        Z::lemma_single();
        self.2.lemma_shape();
        let all = append_cols(cols, self.spec_encode());
        assert(all.subrange(0, 1) =~= append_cols(cols.subrange(0, 1), self.0.spec_encode()));
        assert(cols.subrange(0, 1)[0] == cols[0]);
        self.0.lemma_round_trip(cols.subrange(0, 1), index);
        assert(all.subrange(1, 2) =~= append_cols(cols.subrange(1, 2), self.1.spec_encode()));
        assert(cols.subrange(1, 2)[0] == cols[1]);
        self.1.lemma_round_trip(cols.subrange(1, 2), index);
        assert(all.subrange(2, 3) =~= append_cols(cols.subrange(2, 3), self.2.spec_encode()));
        assert(cols.subrange(2, 3)[0] == cols[2]);
        self.2.lemma_round_trip(cols.subrange(2, 3), index);
    }

    fn components() -> (r: usize) {
        3
    }

    fn size_of() -> (r: usize) {
        proof {
            X::lemma_single();
            Y::lemma_single();
            Z::lemma_single();
        }
        X::size_of() + Y::size_of() + Z::size_of()
    }

    fn write(self, buffers: &mut Vec<Vec<u8>>, first: usize) {
        proof {
            X::lemma_single();
            self.0.lemma_shape();
            Y::lemma_single();
            self.1.lemma_shape();
            Z::lemma_single();
            self.2.lemma_shape();
        }
        let nb = buffers.len();
        let ghost b0 = buffers@;
        self.0.write(buffers, first + 0);
        let ghost b1 = buffers@;
        self.1.write(buffers, first + 1);
        let ghost b2 = buffers@;
        self.2.write(buffers, first + 2);
        let ghost b3 = buffers@;
        proof {
            let c0: int = first + 0;
            assert(b1[c0]@ == b0[c0]@ + self.0.spec_encode()[0]);
            assert(b2[c0]@ == b1[c0]@);
            assert(b3[c0]@ == b2[c0]@);
            assert(buffers@[c0]@ == b0[c0]@ + self.spec_encode()[c0 - first]);
            let c1: int = first + 1;
            assert(b2[c1]@ == b1[c1]@ + self.1.spec_encode()[0]);
            assert(b3[c1]@ == b2[c1]@);
            assert(buffers@[c1]@ == b0[c1]@ + self.spec_encode()[c1 - first]);
            let c2: int = first + 2;
            assert(b3[c2]@ == b2[c2]@ + self.2.spec_encode()[0]);
            assert(buffers@[c2]@ == b0[c2]@ + self.spec_encode()[c2 - first]);
            assert forall|k: int|
                0 <= k < b0.len() && !(first <= k < first + 3) implies #[trigger] buffers@[k]@ == b0[k]@ by {
                assert(b1[k]@ == b0[k]@);
                assert(b2[k]@ == b1[k]@);
                assert(b3[k]@ == b2[k]@);
            }
        }
    }

    fn read(buffers: &Vec<Vec<u8>>, first: usize, index: usize) -> (r: Self) {
        proof {
            X::lemma_single();
            Y::lemma_single();
            Z::lemma_single();
        }
        let nb = buffers.len();
        let ghost k0: int = 0;
        assert((index + 1) * Self::spec_width(k0) <= buffers@[first + k0]@.len());
        let x = X::read(buffers, first + 0, index);
        assert(cols_view(buffers@).subrange(first as int, first + 3).subrange(0, 1) =~= cols_view(buffers@).subrange(first + 0, first + 1));
        let ghost k1: int = 1;
        assert((index + 1) * Self::spec_width(k1) <= buffers@[first + k1]@.len());
        let y = Y::read(buffers, first + 1, index);
        assert(cols_view(buffers@).subrange(first as int, first + 3).subrange(1, 2) =~= cols_view(buffers@).subrange(first + 1, first + 2));
        let ghost k2: int = 2;
        assert((index + 1) * Self::spec_width(k2) <= buffers@[first + k2]@.len());
        let z = Z::read(buffers, first + 2, index);
        assert(cols_view(buffers@).subrange(first as int, first + 3).subrange(2, 3) =~= cols_view(buffers@).subrange(first + 2, first + 3));
        (x, y, z)
    }
}

impl<X: DeviceColumn, Y: DeviceColumn, Z: DeviceColumn, W: DeviceColumn> OnDevice for (X, Y, Z, W) {
    open spec fn spec_components() -> nat {
        4
    }

    open spec fn spec_width(k: int) -> nat {
        if k == 0 {
            X::spec_width(0)
        } else if k == 1 {
            Y::spec_width(0)
        } else if k == 2 {
            Z::spec_width(0)
        } else {
            W::spec_width(0)
        }
    }

    open spec fn spec_size() -> nat {
        X::spec_size() + Y::spec_size() + Z::spec_size() + W::spec_size()
    }

    open spec fn spec_encode(self) -> Seq<Seq<u8>> {
        seq![self.0.spec_encode()[0], self.1.spec_encode()[0], self.2.spec_encode()[0], self.3.spec_encode()[0]]
    }

    open spec fn spec_decode(cols: Seq<Seq<u8>>, index: int) -> Self {
        (X::spec_decode(cols.subrange(0, 1), index), Y::spec_decode(cols.subrange(1, 2), index), Z::spec_decode(cols.subrange(2, 3), index), W::spec_decode(cols.subrange(3, 4), index))
    }

    proof fn lemma_shape(self) {
        X::lemma_single();
        self.0.lemma_shape();
        Y::lemma_single();
        self.1.lemma_shape();
        Z::lemma_single();
        self.2.lemma_shape();
        W::lemma_single();
        self.3.lemma_shape();
    }

    proof fn lemma_round_trip(self, cols: Seq<Seq<u8>>, index: int) {
        X::lemma_single();
        self.0.lemma_shape();
        Y::lemma_single();
        self.1.lemma_shape();
        Z::lemma_single();
        self.2.lemma_shape();
        W::lemma_single();
        self.3.lemma_shape();
        let all = append_cols(cols, self.spec_encode());
        assert(all.subrange(0, 1) =~= append_cols(cols.subrange(0, 1), self.0.spec_encode()));
        assert(cols.subrange(0, 1)[0] == cols[0]);
        self.0.lemma_round_trip(cols.subrange(0, 1), index);
        assert(all.subrange(1, 2) =~= append_cols(cols.subrange(1, 2), self.1.spec_encode()));
        assert(cols.subrange(1, 2)[0] == cols[1]);
        self.1.lemma_round_trip(cols.subrange(1, 2), index);
        assert(all.subrange(2, 3) =~= append_cols(cols.subrange(2, 3), self.2.spec_encode()));
        assert(cols.subrange(2, 3)[0] == cols[2]);
        self.2.lemma_round_trip(cols.subrange(2, 3), index);
        assert(all.subrange(3, 4) =~= append_cols(cols.subrange(3, 4), self.3.spec_encode()));
        assert(cols.subrange(3, 4)[0] == cols[3]);
        self.3.lemma_round_trip(cols.subrange(3, 4), index);
    }

    fn components() -> (r: usize) {
        4
    }

    fn size_of() -> (r: usize) {
        proof {
            X::lemma_single();
            Y::lemma_single();
            Z::lemma_single();
            W::lemma_single();
        }
        X::size_of() + Y::size_of() + Z::size_of() + W::size_of()
    }

    fn write(self, buffers: &mut Vec<Vec<u8>>, first: usize) {
        proof {
            X::lemma_single();
            self.0.lemma_shape();
            Y::lemma_single();
            self.1.lemma_shape();
            Z::lemma_single();
            self.2.lemma_shape();
            W::lemma_single();
            self.3.lemma_shape();
        }
        let nb = buffers.len();
        let ghost b0 = buffers@;
        self.0.write(buffers, first + 0);
        let ghost b1 = buffers@;
        self.1.write(buffers, first + 1);
        let ghost b2 = buffers@;
        self.2.write(buffers, first + 2);
        let ghost b3 = buffers@;
        self.3.write(buffers, first + 3);
        let ghost b4 = buffers@;
        proof {
            let c0: int = first + 0;
            assert(b1[c0]@ == b0[c0]@ + self.0.spec_encode()[0]);
            assert(b2[c0]@ == b1[c0]@);
            assert(b3[c0]@ == b2[c0]@);
            assert(b4[c0]@ == b3[c0]@);
            assert(buffers@[c0]@ == b0[c0]@ + self.spec_encode()[c0 - first]);
            let c1: int = first + 1;
            assert(b2[c1]@ == b1[c1]@ + self.1.spec_encode()[0]);
            assert(b3[c1]@ == b2[c1]@);
            assert(b4[c1]@ == b3[c1]@);
            assert(buffers@[c1]@ == b0[c1]@ + self.spec_encode()[c1 - first]);
            let c2: int = first + 2;
            assert(b3[c2]@ == b2[c2]@ + self.2.spec_encode()[0]);
            assert(b4[c2]@ == b3[c2]@);
            assert(buffers@[c2]@ == b0[c2]@ + self.spec_encode()[c2 - first]);
            let c3: int = first + 3;
            assert(b4[c3]@ == b3[c3]@ + self.3.spec_encode()[0]);
            assert(buffers@[c3]@ == b0[c3]@ + self.spec_encode()[c3 - first]);
            assert forall|k: int|
                0 <= k < b0.len() && !(first <= k < first + 4) implies #[trigger] buffers@[k]@ == b0[k]@ by {
                assert(b1[k]@ == b0[k]@);
                assert(b2[k]@ == b1[k]@);
                assert(b3[k]@ == b2[k]@);
                assert(b4[k]@ == b3[k]@);
            }
        }
    }

    fn read(buffers: &Vec<Vec<u8>>, first: usize, index: usize) -> (r: Self) {
        proof {
            X::lemma_single();
            Y::lemma_single();
            Z::lemma_single();
            W::lemma_single();
        }
        let nb = buffers.len();
        let ghost k0: int = 0;
        assert((index + 1) * Self::spec_width(k0) <= buffers@[first + k0]@.len());
        let x = X::read(buffers, first + 0, index);
        assert(cols_view(buffers@).subrange(first as int, first + 4).subrange(0, 1) =~= cols_view(buffers@).subrange(first + 0, first + 1));
        let ghost k1: int = 1;
        assert((index + 1) * Self::spec_width(k1) <= buffers@[first + k1]@.len());
        let y = Y::read(buffers, first + 1, index);
        assert(cols_view(buffers@).subrange(first as int, first + 4).subrange(1, 2) =~= cols_view(buffers@).subrange(first + 1, first + 2));
        let ghost k2: int = 2;
        assert((index + 1) * Self::spec_width(k2) <= buffers@[first + k2]@.len());
        let z = Z::read(buffers, first + 2, index);
        assert(cols_view(buffers@).subrange(first as int, first + 4).subrange(2, 3) =~= cols_view(buffers@).subrange(first + 2, first + 3));
        let ghost k3: int = 3;
        assert((index + 1) * Self::spec_width(k3) <= buffers@[first + k3]@.len());
        let w = W::read(buffers, first + 3, index);
        assert(cols_view(buffers@).subrange(first as int, first + 4).subrange(3, 4) =~= cols_view(buffers@).subrange(first + 3, first + 4));
        (x, y, z, w)
    }
}

/// A scalar kind of the instruction set: its device name and its signedness.
pub trait PtxScalar: DeviceColumn {
    spec fn spec_name() -> Seq<char>;

    spec fn spec_float() -> bool;

    /// Whether the kind's least value is zero.
    spec fn spec_unsigned() -> bool;

    /// The kind's name in device program text.
    fn name() -> (r: &'static str)
        ensures
            r@ == Self::spec_name(),
    ;

    fn float() -> (r: bool)
        ensures
            r == Self::spec_float(),
    ;

    fn unsigned() -> (r: bool)
        ensures
            r == Self::spec_unsigned(),
    ;

    /// A signed integer kind: neither a float nor unsigned.
    fn signed() -> (r: bool)
        ensures
            r == (!Self::spec_float() && !Self::spec_unsigned()),
    {
        !Self::float() && !Self::unsigned()
    }

    fn is_f32() -> (r: bool)
        ensures
            r == (Self::spec_float() && Self::spec_size() == 4),
    {
        Self::float() && Self::size_of() == 4
    }
}

impl PtxScalar for u8 {
    open spec fn spec_name() -> Seq<char> {
        "u8"@
    }

    open spec fn spec_float() -> bool {
        false
    }

    open spec fn spec_unsigned() -> bool {
        true
    }

    fn name() -> (r: &'static str) {
        "u8"
    }

    fn float() -> (r: bool) {
        false
    }

    fn unsigned() -> (r: bool) {
        true
    }
}

impl PtxScalar for i8 {
    open spec fn spec_name() -> Seq<char> {
        "s8"@
    }

    open spec fn spec_float() -> bool {
        false
    }

    open spec fn spec_unsigned() -> bool {
        false
    }

    fn name() -> (r: &'static str) {
        "s8"
    }

    fn float() -> (r: bool) {
        false
    }

    fn unsigned() -> (r: bool) {
        false
    }
}

impl PtxScalar for u16 {
    open spec fn spec_name() -> Seq<char> {
        "u16"@
    }

    open spec fn spec_float() -> bool {
        false
    }

    open spec fn spec_unsigned() -> bool {
        true
    }

    fn name() -> (r: &'static str) {
        "u16"
    }

    fn float() -> (r: bool) {
        false
    }

    fn unsigned() -> (r: bool) {
        true
    }
}

impl PtxScalar for i16 {
    open spec fn spec_name() -> Seq<char> {
        "s16"@
    }

    open spec fn spec_float() -> bool {
        false
    }

    open spec fn spec_unsigned() -> bool {
        false
    }

    fn name() -> (r: &'static str) {
        "s16"
    }

    fn float() -> (r: bool) {
        false
    }

    fn unsigned() -> (r: bool) {
        false
    }
}

impl PtxScalar for u32 {
    open spec fn spec_name() -> Seq<char> {
        "u32"@
    }

    open spec fn spec_float() -> bool {
        false
    }

    open spec fn spec_unsigned() -> bool {
        true
    }

    fn name() -> (r: &'static str) {
        "u32"
    }

    fn float() -> (r: bool) {
        false
    }

    fn unsigned() -> (r: bool) {
        true
    }
}

impl PtxScalar for i32 {
    open spec fn spec_name() -> Seq<char> {
        "s32"@
    }

    open spec fn spec_float() -> bool {
        false
    }

    open spec fn spec_unsigned() -> bool {
        false
    }

    fn name() -> (r: &'static str) {
        "s32"
    }

    fn float() -> (r: bool) {
        false
    }

    fn unsigned() -> (r: bool) {
        false
    }
}

impl PtxScalar for u64 {
    open spec fn spec_name() -> Seq<char> {
        "u64"@
    }

    open spec fn spec_float() -> bool {
        false
    }

    open spec fn spec_unsigned() -> bool {
        true
    }

    fn name() -> (r: &'static str) {
        "u64"
    }

    fn float() -> (r: bool) {
        false
    }

    fn unsigned() -> (r: bool) {
        true
    }
}

impl PtxScalar for i64 {
    open spec fn spec_name() -> Seq<char> {
        "s64"@
    }

    open spec fn spec_float() -> bool {
        false
    }

    open spec fn spec_unsigned() -> bool {
        false
    }

    fn name() -> (r: &'static str) {
        "s64"
    }

    fn float() -> (r: bool) {
        false
    }

    fn unsigned() -> (r: bool) {
        false
    }
}

impl PtxScalar for E4M3 {
    open spec fn spec_name() -> Seq<char> {
        "e4m3"@
    }

    open spec fn spec_float() -> bool {
        true
    }

    open spec fn spec_unsigned() -> bool {
        false
    }

    fn name() -> (r: &'static str) {
        "e4m3"
    }

    fn float() -> (r: bool) {
        true
    }

    fn unsigned() -> (r: bool) {
        false
    }
}

impl PtxScalar for E5M2 {
    open spec fn spec_name() -> Seq<char> {
        "e5m2"@
    }

    open spec fn spec_float() -> bool {
        true
    }

    open spec fn spec_unsigned() -> bool {
        false
    }

    fn name() -> (r: &'static str) {
        "e5m2"
    }

    fn float() -> (r: bool) {
        true
    }

    fn unsigned() -> (r: bool) {
        false
    }
}

impl PtxScalar for F16 {
    open spec fn spec_name() -> Seq<char> {
        "f16"@
    }

    open spec fn spec_float() -> bool {
        true
    }

    open spec fn spec_unsigned() -> bool {
        false
    }

    fn name() -> (r: &'static str) {
        "f16"
    }

    fn float() -> (r: bool) {
        true
    }

    fn unsigned() -> (r: bool) {
        false
    }
}

impl PtxScalar for F32 {
    open spec fn spec_name() -> Seq<char> {
        "f32"@
    }

    open spec fn spec_float() -> bool {
        true
    }

    open spec fn spec_unsigned() -> bool {
        false
    }

    fn name() -> (r: &'static str) {
        "f32"
    }

    fn float() -> (r: bool) {
        true
    }

    fn unsigned() -> (r: bool) {
        false
    }
}

impl PtxScalar for F64 {
    open spec fn spec_name() -> Seq<char> {
        "f64"@
    }

    open spec fn spec_float() -> bool {
        true
    }

    open spec fn spec_unsigned() -> bool {
        false
    }

    fn name() -> (r: &'static str) {
        "f64"
    }

    fn float() -> (r: bool) {
        true
    }

    fn unsigned() -> (r: bool) {
        false
    }
}

/// Multiplication that keeps both halves of the double-width product.
pub trait WideningMul: Sized {
    /// The value as an integer.
    spec fn spec_value(self) -> int;

    /// The bit pattern read as an unsigned integer.
    spec fn spec_pattern(self) -> nat;

    /// Two to the power of the operand width.
    spec fn spec_modulus() -> nat;

    /// Returns `(lo, hi)`: the product equals `hi` times the modulus plus the pattern of `lo`.
    fn widening_mul(self, b: Self) -> (r: (Self, Self))
        ensures
            r.1.spec_value() * Self::spec_modulus() + r.0.spec_pattern() == self.spec_value()
                * b.spec_value(),
    ;
}

impl WideningMul for u8 {
    open spec fn spec_value(self) -> int {
        self as int
    }

    open spec fn spec_pattern(self) -> nat {
        self as nat
    }

    open spec fn spec_modulus() -> nat {
        0x100
    }

    fn widening_mul(self, b: Self) -> (r: (Self, Self)) {
        assert(self as int * b as int <= 0xff * 0xff) by (nonlinear_arith)
            requires
                self <= 0xff,
                b <= 0xff,
        ;
        let p = (self as u16) * (b as u16);
        proof {
            lemma_fundamental_div_mod(p as int, 0x100);
        }
        ((p % 0x100) as u8, (p / 0x100) as u8)
    }
}

impl WideningMul for u16 {
    open spec fn spec_value(self) -> int {
        self as int
    }

    open spec fn spec_pattern(self) -> nat {
        self as nat
    }

    open spec fn spec_modulus() -> nat {
        0x10000
    }

    fn widening_mul(self, b: Self) -> (r: (Self, Self)) {
        assert(self as int * b as int <= 0xffff * 0xffff) by (nonlinear_arith)
            requires
                self <= 0xffff,
                b <= 0xffff,
        ;
        let p = (self as u32) * (b as u32);
        proof {
            lemma_fundamental_div_mod(p as int, 0x10000);
        }
        ((p % 0x10000) as u16, (p / 0x10000) as u16)
    }
}

impl WideningMul for u32 {
    open spec fn spec_value(self) -> int {
        self as int
    }

    open spec fn spec_pattern(self) -> nat {
        self as nat
    }

    open spec fn spec_modulus() -> nat {
        0x100000000
    }

    fn widening_mul(self, b: Self) -> (r: (Self, Self)) {
        assert(self as int * b as int <= 0xffffffff * 0xffffffff) by (nonlinear_arith)
            requires
                self <= 0xffffffff,
                b <= 0xffffffff,
        ;
        let p = (self as u64) * (b as u64);
        proof {
            lemma_fundamental_div_mod(p as int, 0x100000000);
        }
        ((p % 0x100000000) as u32, (p / 0x100000000) as u32)
    }
}

impl WideningMul for i8 {
    open spec fn spec_value(self) -> int {
        self as int
    }

    open spec fn spec_pattern(self) -> nat {
        (self as u8) as nat
    }

    open spec fn spec_modulus() -> nat {
        0x100
    }

    fn widening_mul(self, b: Self) -> (r: (Self, Self)) {
        let x = self;
        assert(-0x4000 <= x as int * b as int <= 0x4000) by (nonlinear_arith)
            requires
                -0x80 <= x <= 0x7f,
                -0x80 <= b <= 0x7f,
        ;
        let p = (self as i16) * (b as i16);
        // Shifting by a multiple of the modulus keeps the low half and makes the
        // division exact on non-negative values.
        let q: u16 = if p >= 0 {
            (p as u16) + 0x4000
        } else {
            0x4000 - ((-p) as u16)
        };
        assert(q as int == p as int + 0x4000);
        let lo_bits = (q % 0x100) as u8;
        let hi = ((q / 0x100) as i16 - 0x40) as i8;
        let lo = #[verifier::truncate] (lo_bits as i8);
        proof {
            lemma_fundamental_div_mod(q as int, 0x100);
            assert((lo_bits as i8) as u8 == lo_bits) by (bit_vector);
        }
        (lo, hi)
    }
}

impl WideningMul for i16 {
    open spec fn spec_value(self) -> int {
        self as int
    }

    open spec fn spec_pattern(self) -> nat {
        (self as u16) as nat
    }

    open spec fn spec_modulus() -> nat {
        0x10000
    }

    fn widening_mul(self, b: Self) -> (r: (Self, Self)) {
        let x = self;
        assert(-0x40000000 <= x as int * b as int <= 0x40000000) by (nonlinear_arith)
            requires
                -0x8000 <= x <= 0x7fff,
                -0x8000 <= b <= 0x7fff,
        ;
        let p = (self as i32) * (b as i32);
        // Shifting by a multiple of the modulus keeps the low half and makes the
        // division exact on non-negative values.
        let q: u32 = if p >= 0 {
            (p as u32) + 0x40000000
        } else {
            0x40000000 - ((-p) as u32)
        };
        assert(q as int == p as int + 0x40000000);
        let lo_bits = (q % 0x10000) as u16;
        let hi = ((q / 0x10000) as i32 - 0x4000) as i16;
        let lo = #[verifier::truncate] (lo_bits as i16);
        proof {
            lemma_fundamental_div_mod(q as int, 0x10000);
            assert((lo_bits as i16) as u16 == lo_bits) by (bit_vector);
        }
        (lo, hi)
    }
}

impl WideningMul for i32 {
    open spec fn spec_value(self) -> int {
        self as int
    }

    open spec fn spec_pattern(self) -> nat {
        (self as u32) as nat
    }

    open spec fn spec_modulus() -> nat {
        0x100000000
    }

    fn widening_mul(self, b: Self) -> (r: (Self, Self)) {
        let x = self;
        assert(-0x4000000000000000 <= x as int * b as int <= 0x4000000000000000) by (nonlinear_arith)
            requires
                -0x80000000 <= x <= 0x7fffffff,
                -0x80000000 <= b <= 0x7fffffff,
        ;
        let p = (self as i64) * (b as i64);
        // Shifting by a multiple of the modulus keeps the low half and makes the
        // division exact on non-negative values.
        let q: u64 = if p >= 0 {
            (p as u64) + 0x4000000000000000
        } else {
            0x4000000000000000 - ((-p) as u64)
        };
        assert(q as int == p as int + 0x4000000000000000);
        let lo_bits = (q % 0x100000000) as u32;
        let hi = ((q / 0x100000000) as i64 - 0x40000000) as i32;
        let lo = #[verifier::truncate] (lo_bits as i32);
        proof {
            lemma_fundamental_div_mod(q as int, 0x100000000);
            assert((lo_bits as i32) as u32 == lo_bits) by (bit_vector);
        }
        (lo, hi)
    }
}

} // verus!
