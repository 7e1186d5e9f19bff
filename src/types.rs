use vstd::prelude::*;

verus! {

/// Number of SI base dimensions: L, M, T, I, Θ, N, J.
pub const DIMS: usize = 7;

/// Exponents over the SI base dimensions, in the fixed order
/// length, mass, time, current, temperature, amount, luminous intensity.
#[derive(Debug, Clone, Copy, PartialEq, Eq, Hash)]
pub struct Dim {
    pub exponents: [i8; 7],
}

/// True when `v` fits an `i8`.
pub open spec fn fits_i8(v: int) -> bool {
    i8::MIN <= v <= i8::MAX
}

/// Elementwise addition of two exponent lists stays in the `i8` range.
pub open spec fn dims_add_fit(a: Seq<i8>, b: Seq<i8>) -> bool {
    forall|k: int| 0 <= k < 7 ==> fits_i8(#[trigger] a[k] + b[k])
}

/// Elementwise subtraction of two exponent lists stays in the `i8` range.
pub open spec fn dims_sub_fit(a: Seq<i8>, b: Seq<i8>) -> bool {
    forall|k: int| 0 <= k < 7 ==> fits_i8(#[trigger] a[k] - b[k])
}

impl Dim {
    pub open spec fn exp(&self, k: int) -> int {
        self.exponents@[k] as int
    }

    /// Elementwise addition does not leave the `i8` range.
    pub open spec fn add_fits(&self, other: &Dim) -> bool {
        dims_add_fit(self.exponents@, other.exponents@)
    }

    /// Elementwise subtraction does not leave the `i8` range.
    pub open spec fn sub_fits(&self, other: &Dim) -> bool {
        dims_sub_fit(self.exponents@, other.exponents@)
    }

    /// Scaling by `n` does not leave the `i8` range.
    pub open spec fn mul_fits(&self, n: i8) -> bool {
        forall|k: int| 0 <= k < 7 ==> fits_i8(#[trigger] self.exp(k) * n)
    }

    /// The dimensionless identity.
    pub fn zero() -> (r: Dim)
        ensures
            forall|k: int| 0 <= k < 7 ==> #[trigger] r.exp(k) == 0,
    {
        Dim { exponents: [0i8; 7] }
    }

    pub fn add(&self, other: &Dim) -> (r: Dim)
        requires
            self.add_fits(other),
        ensures
            forall|k: int| 0 <= k < 7 ==> #[trigger] r.exp(k) == self.exp(k) + other.exp(k),
    {
        let mut e = [0i8; 7];
        let mut i: usize = 0;
        while i < DIMS
            invariant
                i <= 7,
                self.add_fits(other),
                forall|k: int| 0 <= k < i ==> e@[k] as int == self.exp(k) + other.exp(k),
            decreases 7 - i,
        {
            assert(fits_i8(self.exponents@[i as int] + other.exponents@[i as int]));
            e[i] = self.exponents[i] + other.exponents[i];
            i = i + 1;
        }
        Dim { exponents: e }
    }

    pub fn sub(&self, other: &Dim) -> (r: Dim)
        requires
            self.sub_fits(other),
        ensures
            forall|k: int| 0 <= k < 7 ==> #[trigger] r.exp(k) == self.exp(k) - other.exp(k),
    {
        let mut e = [0i8; 7];
        let mut i: usize = 0;
        while i < DIMS
            invariant
                i <= 7,
                self.sub_fits(other),
                forall|k: int| 0 <= k < i ==> e@[k] as int == self.exp(k) - other.exp(k),
            decreases 7 - i,
        {
            assert(fits_i8(self.exponents@[i as int] - other.exponents@[i as int]));
            e[i] = self.exponents[i] - other.exponents[i];
            i = i + 1;
        }
        Dim { exponents: e }
    }

    pub fn mul_scalar(&self, n: i8) -> (r: Dim)
        requires
            self.mul_fits(n),
        ensures
            forall|k: int| 0 <= k < 7 ==> #[trigger] r.exp(k) == self.exp(k) * n,
    {
        let mut e = [0i8; 7];
        let mut i: usize = 0;
        while i < DIMS
            invariant
                i <= 7,
                self.mul_fits(n),
                forall|k: int| 0 <= k < i ==> e@[k] as int == self.exp(k) * n,
            decreases 7 - i,
        {
            assert(fits_i8(self.exp(i as int) * n));
            e[i] = self.exponents[i] * n;
            i = i + 1;
        }
        Dim { exponents: e }
    }

    /// Whether `add` stays in range.
    pub fn can_add(&self, other: &Dim) -> (r: bool)
        ensures
            r == self.add_fits(other),
    {
        let mut i: usize = 0;
        while i < DIMS
            invariant
                i <= 7,
                forall|k: int|
                    0 <= k < i ==> fits_i8(#[trigger] self.exponents@[k] + other.exponents@[k]),
            decreases 7 - i,
        {
            let v = self.exponents[i] as i16 + other.exponents[i] as i16;
            if v < -128 || v > 127 {
                assert(!fits_i8(self.exponents@[i as int] + other.exponents@[i as int]));
                return false;
            }
            i = i + 1;
        }
        true
    }

    /// Whether `sub` stays in range.
    pub fn can_sub(&self, other: &Dim) -> (r: bool)
        ensures
            r == self.sub_fits(other),
    {
        let mut i: usize = 0;
        while i < DIMS
            invariant
                i <= 7,
                forall|k: int|
                    0 <= k < i ==> fits_i8(#[trigger] self.exponents@[k] - other.exponents@[k]),
            decreases 7 - i,
        {
            let v = self.exponents[i] as i16 - other.exponents[i] as i16;
            if v < -128 || v > 127 {
                assert(!fits_i8(self.exponents@[i as int] - other.exponents@[i as int]));
                return false;
            }
            i = i + 1;
        }
        true
    }

    /// Dimensions are compatible exactly when all exponents agree.
    pub fn is_compatible(&self, other: &Dim) -> (r: bool)
        ensures
            r == (self.exponents@ == other.exponents@),
    {
        let mut i: usize = 0;
        while i < DIMS
            invariant
                i <= 7,
                forall|k: int| 0 <= k < i ==> self.exponents@[k] == other.exponents@[k],
            decreases 7 - i,
        {
            if self.exponents[i] != other.exponents[i] {
                return false;
            }
            i = i + 1;
        }
        assert(self.exponents@ =~= other.exponents@);
        true
    }
}

} // verus!

verus! {

/// The kinds of runtime value.
#[derive(Debug, Clone, Copy, PartialEq, Eq, Structural)]
pub enum ValueKind {
    Scalar,
    ComplexScalar,
    Quantity,
    ComplexQuantity,
    Bool,
    String,
    Function,
}

/// A user-defined function: its parameter names and the body it re-lowers on each call.
#[derive(Debug, PartialEq)]
pub struct UserFunction {
    pub params: Vec<String>,
    pub body: crate::ast::Expr,
}

pub ghost struct UserFunctionModel {
    pub params: Seq<Seq<char>>,
    pub body: crate::ast::ExprModel,
}

impl View for UserFunction {
    type V = UserFunctionModel;

    open spec fn view(&self) -> UserFunctionModel {
        UserFunctionModel { params: crate::ast::strings_model(self.params@), body: self.body@ }
    }
}

} // verus!
