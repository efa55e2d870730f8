use vstd::prelude::*;

verus! {

/// Largest operation budget that can be configured.
pub const MAX_OPERATIONS: u64 = 1_000_000;

/// Largest nesting depth of expressions that can be configured.
pub const MAX_EXPR_DEPTH: usize = 32;

/// Largest length of a string that can be configured.
pub const MAX_STRING_SIZE: usize = 4096;

/// Largest size of an array or a map that can be configured. An array can
/// hold arrays, one level deeper for each element counted, and the engine
/// walks such a value by recursion: the ceiling keeps that depth far below
/// what a thread's stack holds.
pub const MAX_COLLECTION_SIZE: usize = 256;

pub const DEFAULT_OPERATIONS: u64 = 10_000;

pub const DEFAULT_EXPR_DEPTH: usize = 32;

pub const DEFAULT_STRING_SIZE: usize = 1024;

pub const DEFAULT_COLLECTION_SIZE: usize = 256;

/// The resource limits under which a rule is compiled and run.
///
/// Every limit is at least 1 and at most its ceiling, so that a rule can
/// neither run without end nor grow a value or the stack without bound.
/// The four numbers are configuration: `Limits::new` takes any set within
/// the ceilings, `Limits::standard` is the conservative default.
#[derive(Clone, Copy, Debug)]
pub struct Limits {
    max_operations: u64,
    max_expr_depth: usize,
    max_string_size: usize,
    max_collection_size: usize,
}

/// Whether four numbers are admissible limits.
pub open spec fn in_range(operations: u64, expr_depth: usize, string_size: usize, collection_size: usize) -> bool {
    &&& 1 <= operations <= MAX_OPERATIONS
    &&& 1 <= expr_depth <= MAX_EXPR_DEPTH
    &&& 1 <= string_size <= MAX_STRING_SIZE
    &&& 1 <= collection_size <= MAX_COLLECTION_SIZE
}

impl Limits {
    #[verifier::type_invariant]
    pub closed spec fn wf(&self) -> bool {
        in_range(self.max_operations, self.max_expr_depth, self.max_string_size, self.max_collection_size)
    }

    pub closed spec fn operations(&self) -> u64 {
        self.max_operations
    }

    pub closed spec fn expr_depth(&self) -> usize {
        self.max_expr_depth
    }

    pub closed spec fn string_size(&self) -> usize {
        self.max_string_size
    }

    pub closed spec fn collection_size(&self) -> usize {
        self.max_collection_size
    }

    /// The limits with the given values, if each is within its range.
    pub fn new(operations: u64, expr_depth: usize, string_size: usize, collection_size: usize) -> (r: Option<Limits>)
        ensures
            r.is_some() == in_range(operations, expr_depth, string_size, collection_size),
            r matches Some(l) ==> l.wf() && l.operations() == operations && l.expr_depth() == expr_depth
                && l.string_size() == string_size && l.collection_size() == collection_size,
    {
        if 1 <= operations && operations <= MAX_OPERATIONS && 1 <= expr_depth && expr_depth <= MAX_EXPR_DEPTH
            && 1 <= string_size && string_size <= MAX_STRING_SIZE && 1 <= collection_size && collection_size
            <= MAX_COLLECTION_SIZE {
            Some(
                Limits {
                    max_operations: operations,
                    max_expr_depth: expr_depth,
                    max_string_size: string_size,
                    max_collection_size: collection_size,
                },
            )
        } else {
            None
        }
    }

    /// The conservative limits that `calc_price` and `validate` use, as a
    /// value of specifications.
    pub closed spec fn spec_standard() -> Limits {
        Limits {
            max_operations: DEFAULT_OPERATIONS,
            max_expr_depth: DEFAULT_EXPR_DEPTH,
            max_string_size: DEFAULT_STRING_SIZE,
            max_collection_size: DEFAULT_COLLECTION_SIZE,
        }
    }

    /// The conservative limits that `calc_price` and `validate` use.
    pub fn standard() -> (l: Limits)
        ensures
            l == Limits::spec_standard(),
            l.wf(),
            l.operations() == DEFAULT_OPERATIONS,
            l.expr_depth() == DEFAULT_EXPR_DEPTH,
            l.string_size() == DEFAULT_STRING_SIZE,
            l.collection_size() == DEFAULT_COLLECTION_SIZE,
    {
        Limits {
            max_operations: DEFAULT_OPERATIONS,
            max_expr_depth: DEFAULT_EXPR_DEPTH,
            max_string_size: DEFAULT_STRING_SIZE,
            max_collection_size: DEFAULT_COLLECTION_SIZE,
        }
    }

    /// The number of operations a rule may perform.
    pub fn max_operations(&self) -> (n: u64)
        ensures
            n == self.operations(),
            1 <= n <= MAX_OPERATIONS,
    {
        proof {
            use_type_invariant(self);
        }
        self.max_operations
    }

    /// The nesting depth of expressions a rule may have.
    pub fn max_expr_depth(&self) -> (n: usize)
        ensures
            n == self.expr_depth(),
            1 <= n <= MAX_EXPR_DEPTH,
    {
        proof {
            use_type_invariant(self);
        }
        self.max_expr_depth
    }

    /// The length a string may reach while a rule runs.
    pub fn max_string_size(&self) -> (n: usize)
        ensures
            n == self.string_size(),
            1 <= n <= MAX_STRING_SIZE,
    {
        proof {
            use_type_invariant(self);
        }
        self.max_string_size
    }

    /// The size an array or a map may reach while a rule runs.
    pub fn max_collection_size(&self) -> (n: usize)
        ensures
            n == self.collection_size(),
            1 <= n <= MAX_COLLECTION_SIZE,
    {
        proof {
            use_type_invariant(self);
        }
        self.max_collection_size
    }
}

} // verus!
