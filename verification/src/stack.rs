//! Coroutine stack layout.
//!
//! A stack is one mapping of `total` bytes: the lowest page is a guard page
//! (no access), the rest is usable stack. The top (highest address) is where
//! the stack pointer starts; it is 16-byte aligned, as the System V ABI asks.
use vstd::prelude::*;
use vstd::arithmetic::div_mod::{lemma_fundamental_div_mod, lemma_mod_multiples_basic};
use vstd::arithmetic::power2::{pow2, lemma_pow2_adds, lemma_pow2_pos, lemma2_to64};
use vstd::bits::{lemma_usize_pow2_no_overflow, lemma_usize_shl_is_mul, lemma_usize_shr_is_div};

verus! {

/// `p` is a page size the runtime works with: a power of two of at least 16.
pub open spec fn is_page_size(p: usize) -> bool {
    exists|k: usize| 4 <= k < usize::BITS && p == pow2(k as nat)
}

/// The smallest multiple of `page` that is at least `x`.
pub open spec fn round_up(x: int, page: int) -> int {
    ((x + page - 1) / page) * page
}

/// Errors of stack allocation (error code range `20000..=29999`).
#[derive(Debug, Clone, Copy, PartialEq, Eq)]
pub enum StackError {
    /// The requested size is zero.
    ZeroSize,
    /// The `mmap` system call failed with the given OS error number.
    Mmap(i32),
    /// The `mprotect` system call (guard page) failed with the given OS error number.
    Mprotect(i32),
}

impl StackError {
    /// The error code of each variant.
    pub open spec fn spec_code(self) -> u32 {
        match self {
            StackError::ZeroSize => 20001,
            StackError::Mmap(_) => 20002,
            StackError::Mprotect(_) => 20003,
        }
    }

    /// The fixed part of each variant's message.
    pub open spec fn spec_message(self) -> Seq<char> {
        match self {
            StackError::ZeroSize => "stack size must be non-zero"@,
            StackError::Mmap(_) => "mmap failed"@,
            StackError::Mprotect(_) => "mprotect failed"@,
        }
    }

    /// Error code of this error.
    pub fn code(&self) -> (c: u32)
        ensures
            c == self.spec_code(),
    {
        match self {
            StackError::ZeroSize => 20001,
            StackError::Mmap(_) => 20002,
            StackError::Mprotect(_) => 20003,
        }
    }

    /// Message of this error (without the OS error text, which the caller
    /// that holds the OS error appends after a colon).
    pub fn message(&self) -> (s: String)
        ensures
            s@ == self.spec_message(),
    {
        match self {
            StackError::ZeroSize => "stack size must be non-zero".to_string(),
            StackError::Mmap(_) => "mmap failed".to_string(),
            StackError::Mprotect(_) => "mprotect failed".to_string(),
        }
    }

    /// The OS error number carried by a system-call failure.
    pub fn os_error(&self) -> (e: Option<i32>)
        ensures
            e == (match self {
                StackError::ZeroSize => None,
                StackError::Mmap(n) => Some(*n),
                StackError::Mprotect(n) => Some(*n),
            }),
    {
        match self {
            StackError::ZeroSize => None,
            StackError::Mmap(n) => Some(*n),
            StackError::Mprotect(n) => Some(*n),
        }
    }
}


/// What an allocation of a stack does next.
#[derive(Debug)]
pub enum StackStep {
    /// The allocation failed; nothing is left mapped.
    Failed(StackError),
    /// Protect the `len` bytes at `addr` (the guard page), then report with
    /// `StackLayout::protected`.
    ProtectGuard { addr: usize, len: usize },
    /// Unmap the `len` bytes at `addr` (the whole mapping), then fail with `error`.
    UnmapAndFail { addr: usize, len: usize, error: StackError },
    /// The stack is ready.
    Ready(Stack),
}

/// Layout of one stack mapping: a guard page of `guard` bytes below `usable`
/// bytes of stack; `usable` is a multiple of the page size.
#[derive(Debug, Clone, Copy, PartialEq, Eq)]
pub struct StackLayout {
    usable: usize,
    guard: usize,
}

impl StackLayout {
    #[verifier::type_invariant]
    spec fn layout_inv(self) -> bool {
        &&& is_page_size(self.guard)
        &&& self.usable > 0
        &&& self.usable as int % self.guard as int == 0
        &&& self.usable + self.guard <= usize::MAX
    }

    /// Usable bytes (without the guard page).
    pub closed spec fn usable_spec(self) -> nat {
        self.usable as nat
    }

    /// Bytes of the guard page (one page).
    pub closed spec fn guard_spec(self) -> nat {
        self.guard as nat
    }

    /// Layout for a stack of at least `usable` bytes on pages of `page` bytes:
    /// `usable` rounded up to a whole number of pages, plus one guard page.
    /// A request of zero bytes is refused.
    pub fn new(usable: usize, page: usize) -> (r: Result<StackLayout, StackError>)
        requires
            is_page_size(page),
            usable + page <= usize::MAX,
            round_up(usable as int, page as int) + page <= usize::MAX,
        ensures
            usable == 0 ==> r == Err::<StackLayout, StackError>(StackError::ZeroSize),
            usable != 0 ==> (r matches Ok(l) && l.usable_spec() == round_up(usable as int, page as int)
                && l.guard_spec() == page),
            r matches Ok(l) ==> usable <= l.usable_spec() < usable + page
                && l.usable_spec() as int % page as int == 0,
    {
        if usable == 0 {
            return Err(StackError::ZeroSize);
        }
        let ghost k = choose|k: usize| 4 <= k < usize::BITS && page == pow2(k as nat);
        proof {
            lemma_page_size(page);
        }
        let usable_aligned: usize = (usable + page - 1) & !(page - 1);
        proof {
            lemma_page_mask((usable + page - 1) as usize, page, k);
            lemma_round_up(usable as int, page as int);
        }
        Ok(StackLayout { usable: usable_aligned, guard: page })
    }

    /// Next step of an allocation once the `usable + guard` bytes were mapped
    /// (`result` is the address, or the OS error number): a failed mapping
    /// fails with `Mmap` and leaves nothing mapped, so nothing is protected or
    /// released; a mapping at `base` goes on to protect its lowest page.
    pub fn mapped(self, result: Result<usize, i32>) -> (step: StackStep)
        ensures
            result matches Err(e) ==> step == StackStep::Failed(StackError::Mmap(e)),
            result matches Ok(base) ==> step == (StackStep::ProtectGuard {
                addr: base,
                len: self.guard_spec() as usize,
            }),
    {
        match result {
            Err(e) => StackStep::Failed(StackError::Mmap(e)),
            Ok(base) => StackStep::ProtectGuard { addr: base, len: self.guard },
        }
    }

    /// Next step of an allocation once the guard page of the mapping at
    /// `base` was protected (`result` is `Ok`, or the OS error number): a
    /// failed protection releases the whole mapping, once, and fails with
    /// `Mprotect`; otherwise the stack is ready on the mapping.
    pub fn protected(self, base: usize, result: Result<(), i32>) -> (step: StackStep)
        requires
            base as int % self.guard_spec() as int == 0,
            base + self.usable_spec() + self.guard_spec() <= usize::MAX,
        ensures
            result matches Err(e) ==> step == (StackStep::UnmapAndFail {
                addr: base,
                len: (self.usable_spec() + self.guard_spec()) as usize,
                error: StackError::Mprotect(e),
            }),
            result is Ok ==> (step matches StackStep::Ready(s) && s.base_spec() == base
                && s.total_spec() == self.usable_spec() + self.guard_spec()
                && s.guard_spec() == self.guard_spec()),
    {
        match result {
            Err(e) => StackStep::UnmapAndFail {
                addr: base,
                len: self.total_bytes(),
                error: StackError::Mprotect(e),
            },
            Ok(()) => StackStep::Ready(Stack::from_mapping(self, base)),
        }
    }

    /// Usable bytes of the layout.
    pub fn usable_bytes(&self) -> (n: usize)
        ensures
            n == self.usable_spec(),
    {
        self.usable
    }

    /// Bytes of the guard page.
    pub fn guard_bytes(&self) -> (n: usize)
        ensures
            n == self.guard_spec(),
    {
        self.guard
    }

    /// Bytes of the whole mapping: usable stack plus guard page.
    pub fn total_bytes(&self) -> (n: usize)
        ensures
            n == self.usable_spec() + self.guard_spec(),
    {
        proof {
            use_type_invariant(self);
        }
        self.usable + self.guard
    }
}

/// A coroutine stack: one mapping at `base` of `total_bytes`, whose lowest
/// `guard_bytes` are the guard page.
///
/// Layout (low -> high): `[guard page] [usable stack ........ top]`.
#[derive(Debug)]
pub struct Stack {
    base: usize,
    total_bytes: usize,
    guard_bytes: usize,
}

impl Stack {
    #[verifier::type_invariant]
    spec fn stack_inv(self) -> bool {
        &&& is_page_size(self.guard_bytes)
        &&& self.total_bytes > self.guard_bytes
        &&& self.total_bytes as int % self.guard_bytes as int == 0
        &&& self.base as int % self.guard_bytes as int == 0
        &&& self.base + self.total_bytes <= usize::MAX
    }

    /// Address of the start of the mapping (the guard page).
    pub closed spec fn base_spec(&self) -> nat {
        self.base as nat
    }

    /// Bytes of the mapping.
    pub closed spec fn total_spec(&self) -> nat {
        self.total_bytes as nat
    }

    /// Bytes of the guard page.
    pub closed spec fn guard_spec(&self) -> nat {
        self.guard_bytes as nat
    }

    /// The stack placed on a mapping at `base` made with `layout` (whose
    /// guard page has been protected).
    pub fn from_mapping(layout: StackLayout, base: usize) -> (s: Stack)
        requires
            base as int % layout.guard_spec() as int == 0,
            base + layout.usable_spec() + layout.guard_spec() <= usize::MAX,
        ensures
            s.base_spec() == base,
            s.total_spec() == layout.usable_spec() + layout.guard_spec(),
            s.guard_spec() == layout.guard_spec(),
    {
        proof {
            use_type_invariant(&layout);
            lemma_page_size(layout.guard);
            vstd::arithmetic::div_mod::lemma_mod_adds(layout.usable as int, layout.guard as int, layout.guard as int);
            lemma_fundamental_div_mod(layout.guard as int, layout.guard as int);
        }
        Stack { base, total_bytes: layout.usable + layout.guard, guard_bytes: layout.guard }
    }

    /// Usable stack bytes (without the guard page).
    pub fn usable_size(&self) -> (n: usize)
        ensures
            n == self.total_spec() - self.guard_spec(),
    {
        proof {
            use_type_invariant(self);
        }
        self.total_bytes - self.guard_bytes
    }

    /// The top of the stack (highest address, one past the mapping), 16-byte aligned.
    pub fn top(&self) -> (t: usize)
        ensures
            t == self.base_spec() + self.total_spec(),
            t % 16 == 0,
            t as int % self.guard_spec() as int == 0,
            self.total_spec() > self.guard_spec(),
            self.guard_spec() >= 16,
    {
        proof {
            use_type_invariant(self);
            lemma_page_size(self.guard_bytes);
            lemma_sum_multiple_of_16(self.base as int, self.total_bytes as int, self.guard_bytes as int);
            lemma_sum_multiple(self.base as int, self.total_bytes as int, self.guard_bytes as int);
        }
        self.base + self.total_bytes
    }

    /// The lowest usable address (first byte after the guard page).
    pub fn bottom(&self) -> (b: usize)
        ensures
            b == self.base_spec() + self.guard_spec(),
            (self.base_spec() + self.total_spec()) - b == self.total_spec() - self.guard_spec(),
            b as int % self.guard_spec() as int == 0,
    {
        proof {
            use_type_invariant(self);
            lemma_page_size(self.guard_bytes);
            lemma_mod_multiples_basic(1, self.guard_bytes as int);
            lemma_sum_multiple(self.base as int, self.guard_bytes as int, self.guard_bytes as int);
        }
        self.base + self.guard_bytes
    }

    /// Address of the mapping.
    pub fn base(&self) -> (b: usize)
        ensures
            b == self.base_spec(),
    {
        self.base
    }

    /// Bytes of the mapping.
    pub fn total_bytes(&self) -> (n: usize)
        ensures
            n == self.total_spec(),
    {
        self.total_bytes
    }

    /// Bytes of the guard page.
    pub fn guard_bytes(&self) -> (n: usize)
        ensures
            n == self.guard_spec(),
    {
        self.guard_bytes
    }
}

/// `round_up(x, p)` is the least multiple of `p` that is at least `x`.
pub proof fn lemma_round_up(x: int, p: int)
    requires
        x >= 0,
        p > 0,
    ensures
        x <= round_up(x, p) < x + p,
        round_up(x, p) % p == 0,
{
    lemma_fundamental_div_mod(x + p - 1, p);
    lemma_mod_multiples_basic((x + p - 1) / p, p);
    assert(round_up(x, p) == (x + p - 1) - (x + p - 1) % p) by (nonlinear_arith)
        requires
            x + p - 1 == p * ((x + p - 1) / p) + (x + p - 1) % p,
    ;
}

/// Clearing the bits below a power of two `p` rounds down to a multiple of `p`;
/// such a `p` is itself a multiple of 16.
proof fn lemma_page_mask(x: usize, p: usize, k: usize)
    requires
        4 <= k < usize::BITS,
        p == pow2(k as nat),
    ensures
        x & !((p - 1) as usize) == (x as int / p as int) * p,
        p % 16 == 0,
        p >= 16,
{
    lemma_usize_pow2_no_overflow(k as nat);
    lemma_usize_shl_is_mul(1, k);
    assert(x & !(((1usize << k) - 1) as usize) == (x >> k) << k) by (bit_vector)
        requires
            k < usize::BITS,
    ;
    lemma_usize_shr_is_div(x, k);
    let q: usize = x >> k;
    lemma_fundamental_div_mod(x as int, p as int);
    assert(q * pow2(k as nat) <= x) by (nonlinear_arith)
        requires
            q == x as int / p as int,
            x == p * (x as int / p as int) + x as int % p as int,
            p == pow2(k as nat),
            0 <= x as int % p as int,
    ;
    lemma_usize_shl_is_mul(q, k);
    lemma_pow2_adds(4, (k - 4) as nat);
    lemma2_to64();
    lemma_mod_multiples_basic(pow2((k - 4) as nat) as int, 16);
    lemma_pow2_pos((k - 4) as nat);
}

/// A page size is a multiple of 16.
proof fn lemma_page_size(p: usize)
    requires
        is_page_size(p),
    ensures
        p >= 16,
        p % 16 == 0,
{
    let k: usize = choose|k: usize| 4 <= k < usize::BITS && p == pow2(k as nat);
    lemma_page_mask(0, p, k);
}

/// The sum of two multiples of `p` is a multiple of `p`.
proof fn lemma_sum_multiple(a: int, b: int, p: int)
    requires
        p > 0,
        a % p == 0,
        b % p == 0,
    ensures
        (a + b) % p == 0,
{
    lemma_fundamental_div_mod(a, p);
    lemma_fundamental_div_mod(b, p);
    assert(a + b == (a / p + b / p) * p) by (nonlinear_arith)
        requires
            a == p * (a / p),
            b == p * (b / p),
    ;
    lemma_mod_multiples_basic(a / p + b / p, p);
}

/// The sum of two non-negative multiples of `p` is a multiple of 16 when `p` is.
proof fn lemma_sum_multiple_of_16(a: int, b: int, p: int)
    requires
        p > 0,
        a % p == 0,
        b % p == 0,
        p % 16 == 0,
    ensures
        (a + b) % 16 == 0,
{
    lemma_fundamental_div_mod(a, p);
    lemma_fundamental_div_mod(b, p);
    lemma_fundamental_div_mod(p, 16);
    let c: int = p / 16;
    assert(a + b == ((a / p + b / p) * c) * 16) by (nonlinear_arith)
        requires
            a == p * (a / p),
            b == p * (b / p),
            p == 16 * c,
    ;
    lemma_mod_multiples_basic((a / p + b / p) * c, 16);
}

} // verus!
