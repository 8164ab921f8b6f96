//! The arguments of a call of a JavaScript function: the raw handles of the
//! values passed, gathered in a `SmallVec` that keeps up to eight of them
//! inline, then counted against the engine's limit.

use crate::values::prepare_call;
use smallvec::SmallVec;
use vstd::prelude::*;

verus! {

/// A vector of argument handles: a `SmallVec` that keeps up to eight of
/// them inline before it moves them to the heap.
#[verifier::external_body]
pub struct ArgsVec {
    items: SmallVec<[u64; 8]>,
}

/// The handles held by a vector of arguments, in order.
pub uninterp spec fn args_vec_items(v: ArgsVec) -> Seq<u64>;

/// The most arguments gathered in one vector: far below the length at
/// which `SmallVec::push` fails to compute its new capacity or its layout.
pub open spec fn args_vec_max_len() -> nat {
    0x400_0000
}

/// `SmallVec::new`: an empty vector.
#[verifier::external_body]
fn args_vec_new() -> (v: ArgsVec)
    ensures
        args_vec_items(v) == Seq::<u64>::empty(),
{
    ArgsVec { items: SmallVec::new() }
}

/// `SmallVec::push`: appends `x` at the end. The vector grows to the next
/// power of two when it is full, which panics only far above the bound of
/// the `requires`; running out of memory aborts, which nothing here states.
#[verifier::external_body]
fn args_vec_push(v: &mut ArgsVec, x: u64)
    requires
        args_vec_items(*old(v)).len() < args_vec_max_len(),
    ensures
        args_vec_items(*final(v)) == args_vec_items(*old(v)).push(x),
{
    v.items.push(x)
}

/// `SmallVec::len`: the number of items.
#[verifier::external_body]
fn args_vec_len(v: &ArgsVec) -> (n: usize)
    ensures
        n == args_vec_items(*v).len(),
{
    v.items.len()
}

/// `SmallVec::into_vec`: the items, in order, in a `Vec`.
#[verifier::external_body]
fn args_vec_into_vec(v: ArgsVec) -> (r: Vec<u64>)
    ensures
        r@ == args_vec_items(v),
{
    v.items.into_vec()
}

/// The arguments of a call: the raw handles of the values passed, as a
/// `Vec`, as `()`, or as a tuple of 1 to 32 handles.
pub trait Arguments: Sized {
    /// The handles of the arguments, in order.
    spec fn arg_handles(&self) -> Seq<u64>;

    /// The handles gathered in an argument vector, in order.
    fn into_args_vec(self) -> (r: ArgsVec)
        requires
            self.arg_handles().len() <= args_vec_max_len(),
        ensures
            args_vec_items(r) == self.arg_handles(),
    ;
}

/// Gathers the handles of `args`, in order.
pub fn collect_args(args: &[u64]) -> (r: ArgsVec)
    requires
        args@.len() <= args_vec_max_len(),
    ensures
        args_vec_items(r) == args@,
{
    let mut v = args_vec_new();
    let mut i: usize = 0;
    while i < args.len()
        invariant
            i <= args@.len() <= args_vec_max_len(),
            args_vec_items(v) == args@.subrange(0, i as int),
        decreases args@.len() - i,
    {
        args_vec_push(&mut v, args[i]);
        i = i + 1;
        assert(args_vec_items(v) =~= args@.subrange(0, i as int));
    }
    assert(args@.subrange(0, args@.len() as int) =~= args@);
    v
}

impl Arguments for Vec<u64> {
    open spec fn arg_handles(&self) -> Seq<u64> {
        self@
    }

    fn into_args_vec(self) -> (r: ArgsVec) {
        collect_args(self.as_slice())
    }
}

impl Arguments for () {
    open spec fn arg_handles(&self) -> Seq<u64> {
        Seq::empty()
    }

    fn into_args_vec(self) -> (r: ArgsVec) {
        args_vec_new()
    }
}

impl Arguments for (u64,) {
    open spec fn arg_handles(&self) -> Seq<u64> {
        seq![self.0]
    }

    fn into_args_vec(self) -> (r: ArgsVec) {
        let mut v = args_vec_new();
        args_vec_push(&mut v, self.0);
        proof {
            assert(args_vec_items(v) =~= self.arg_handles());
        }
        v
    }
}

impl Arguments for (u64, u64) {
    open spec fn arg_handles(&self) -> Seq<u64> {
        seq![self.0, self.1]
    }

    fn into_args_vec(self) -> (r: ArgsVec) {
        let mut v = args_vec_new();
        args_vec_push(&mut v, self.0);
        args_vec_push(&mut v, self.1);
        proof {
            assert(args_vec_items(v) =~= self.arg_handles());
        }
        v
    }
}

impl Arguments for (u64, u64, u64) {
    open spec fn arg_handles(&self) -> Seq<u64> {
        seq![self.0, self.1, self.2]
    }

    fn into_args_vec(self) -> (r: ArgsVec) {
        let mut v = args_vec_new();
        args_vec_push(&mut v, self.0);
        args_vec_push(&mut v, self.1);
        args_vec_push(&mut v, self.2);
        proof {
            assert(args_vec_items(v) =~= self.arg_handles());
        }
        v
    }
}

impl Arguments for (u64, u64, u64, u64) {
    open spec fn arg_handles(&self) -> Seq<u64> {
        seq![self.0, self.1, self.2, self.3]
    }

    fn into_args_vec(self) -> (r: ArgsVec) {
        let mut v = args_vec_new();
        args_vec_push(&mut v, self.0);
        args_vec_push(&mut v, self.1);
        args_vec_push(&mut v, self.2);
        args_vec_push(&mut v, self.3);
        proof {
            assert(args_vec_items(v) =~= self.arg_handles());
        }
        v
    }
}

impl Arguments for (u64, u64, u64, u64, u64) {
    open spec fn arg_handles(&self) -> Seq<u64> {
        seq![self.0, self.1, self.2, self.3, self.4]
    }

    fn into_args_vec(self) -> (r: ArgsVec) {
        let mut v = args_vec_new();
        args_vec_push(&mut v, self.0);
        args_vec_push(&mut v, self.1);
        args_vec_push(&mut v, self.2);
        args_vec_push(&mut v, self.3);
        args_vec_push(&mut v, self.4);
        proof {
            assert(args_vec_items(v) =~= self.arg_handles());
        }
        v
    }
}

impl Arguments for (u64, u64, u64, u64, u64, u64) {
    open spec fn arg_handles(&self) -> Seq<u64> {
        seq![self.0, self.1, self.2, self.3, self.4, self.5]
    }

    fn into_args_vec(self) -> (r: ArgsVec) {
        let mut v = args_vec_new();
        args_vec_push(&mut v, self.0);
        args_vec_push(&mut v, self.1);
        args_vec_push(&mut v, self.2);
        args_vec_push(&mut v, self.3);
        args_vec_push(&mut v, self.4);
        args_vec_push(&mut v, self.5);
        proof {
            assert(args_vec_items(v) =~= self.arg_handles());
        }
        v
    }
}

impl Arguments for (u64, u64, u64, u64, u64, u64, u64) {
    open spec fn arg_handles(&self) -> Seq<u64> {
        seq![self.0, self.1, self.2, self.3, self.4, self.5, self.6]
    }

    fn into_args_vec(self) -> (r: ArgsVec) {
        let mut v = args_vec_new();
        args_vec_push(&mut v, self.0);
        args_vec_push(&mut v, self.1);
        args_vec_push(&mut v, self.2);
        args_vec_push(&mut v, self.3);
        args_vec_push(&mut v, self.4);
        args_vec_push(&mut v, self.5);
        args_vec_push(&mut v, self.6);
        proof {
            assert(args_vec_items(v) =~= self.arg_handles());
        }
        v
    }
}

impl Arguments for (u64, u64, u64, u64, u64, u64, u64, u64) {
    open spec fn arg_handles(&self) -> Seq<u64> {
        seq![self.0, self.1, self.2, self.3, self.4, self.5, self.6, self.7]
    }

    fn into_args_vec(self) -> (r: ArgsVec) {
        let mut v = args_vec_new();
        args_vec_push(&mut v, self.0);
        args_vec_push(&mut v, self.1);
        args_vec_push(&mut v, self.2);
        args_vec_push(&mut v, self.3);
        args_vec_push(&mut v, self.4);
        args_vec_push(&mut v, self.5);
        args_vec_push(&mut v, self.6);
        args_vec_push(&mut v, self.7);
        proof {
            assert(args_vec_items(v) =~= self.arg_handles());
        }
        v
    }
}

impl Arguments for (u64, u64, u64, u64, u64, u64, u64, u64, u64) {
    open spec fn arg_handles(&self) -> Seq<u64> {
        seq![self.0, self.1, self.2, self.3, self.4, self.5, self.6, self.7, self.8]
    }

    fn into_args_vec(self) -> (r: ArgsVec) {
        let mut v = args_vec_new();
        args_vec_push(&mut v, self.0);
        args_vec_push(&mut v, self.1);
        args_vec_push(&mut v, self.2);
        args_vec_push(&mut v, self.3);
        args_vec_push(&mut v, self.4);
        args_vec_push(&mut v, self.5);
        args_vec_push(&mut v, self.6);
        args_vec_push(&mut v, self.7);
        args_vec_push(&mut v, self.8);
        proof {
            assert(args_vec_items(v) =~= self.arg_handles());
        }
        v
    }
}

impl Arguments for (u64, u64, u64, u64, u64, u64, u64, u64, u64, u64) {
    open spec fn arg_handles(&self) -> Seq<u64> {
        seq![self.0, self.1, self.2, self.3, self.4, self.5, self.6, self.7, self.8, self.9]
    }

    fn into_args_vec(self) -> (r: ArgsVec) {
        let mut v = args_vec_new();
        args_vec_push(&mut v, self.0);
        args_vec_push(&mut v, self.1);
        args_vec_push(&mut v, self.2);
        args_vec_push(&mut v, self.3);
        args_vec_push(&mut v, self.4);
        args_vec_push(&mut v, self.5);
        args_vec_push(&mut v, self.6);
        args_vec_push(&mut v, self.7);
        args_vec_push(&mut v, self.8);
        args_vec_push(&mut v, self.9);
        proof {
            assert(args_vec_items(v) =~= self.arg_handles());
        }
        v
    }
}

impl Arguments for (u64, u64, u64, u64, u64, u64, u64, u64, u64, u64, u64) {
    open spec fn arg_handles(&self) -> Seq<u64> {
        seq![self.0, self.1, self.2, self.3, self.4, self.5, self.6, self.7, self.8, self.9, self.10]
    }

    fn into_args_vec(self) -> (r: ArgsVec) {
        let mut v = args_vec_new();
        args_vec_push(&mut v, self.0);
        args_vec_push(&mut v, self.1);
        args_vec_push(&mut v, self.2);
        args_vec_push(&mut v, self.3);
        args_vec_push(&mut v, self.4);
        args_vec_push(&mut v, self.5);
        args_vec_push(&mut v, self.6);
        args_vec_push(&mut v, self.7);
        args_vec_push(&mut v, self.8);
        args_vec_push(&mut v, self.9);
        args_vec_push(&mut v, self.10);
        proof {
            assert(args_vec_items(v) =~= self.arg_handles());
        }
        v
    }
}

impl Arguments for (u64, u64, u64, u64, u64, u64, u64, u64, u64, u64, u64, u64) {
    open spec fn arg_handles(&self) -> Seq<u64> {
        seq![self.0, self.1, self.2, self.3, self.4, self.5, self.6, self.7, self.8, self.9, self.10, self.11]
    }

    fn into_args_vec(self) -> (r: ArgsVec) {
        let mut v = args_vec_new();
        args_vec_push(&mut v, self.0);
        args_vec_push(&mut v, self.1);
        args_vec_push(&mut v, self.2);
        args_vec_push(&mut v, self.3);
        args_vec_push(&mut v, self.4);
        args_vec_push(&mut v, self.5);
        args_vec_push(&mut v, self.6);
        args_vec_push(&mut v, self.7);
        args_vec_push(&mut v, self.8);
        args_vec_push(&mut v, self.9);
        args_vec_push(&mut v, self.10);
        args_vec_push(&mut v, self.11);
        proof {
            assert(args_vec_items(v) =~= self.arg_handles());
        }
        v
    }
}

impl Arguments for (u64, u64, u64, u64, u64, u64, u64, u64, u64, u64, u64, u64, u64) {
    open spec fn arg_handles(&self) -> Seq<u64> {
        seq![self.0, self.1, self.2, self.3, self.4, self.5, self.6, self.7, self.8, self.9, self.10, self.11, self.12]
    }

    fn into_args_vec(self) -> (r: ArgsVec) {
        let mut v = args_vec_new();
        args_vec_push(&mut v, self.0);
        args_vec_push(&mut v, self.1);
        args_vec_push(&mut v, self.2);
        args_vec_push(&mut v, self.3);
        args_vec_push(&mut v, self.4);
        args_vec_push(&mut v, self.5);
        args_vec_push(&mut v, self.6);
        args_vec_push(&mut v, self.7);
        args_vec_push(&mut v, self.8);
        args_vec_push(&mut v, self.9);
        args_vec_push(&mut v, self.10);
        args_vec_push(&mut v, self.11);
        args_vec_push(&mut v, self.12);
        proof {
            assert(args_vec_items(v) =~= self.arg_handles());
        }
        v
    }
}

impl Arguments for (u64, u64, u64, u64, u64, u64, u64, u64, u64, u64, u64, u64, u64, u64) {
    open spec fn arg_handles(&self) -> Seq<u64> {
        seq![self.0, self.1, self.2, self.3, self.4, self.5, self.6, self.7, self.8, self.9, self.10, self.11, self.12, self.13]
    }

    fn into_args_vec(self) -> (r: ArgsVec) {
        let mut v = args_vec_new();
        args_vec_push(&mut v, self.0);
        args_vec_push(&mut v, self.1);
        args_vec_push(&mut v, self.2);
        args_vec_push(&mut v, self.3);
        args_vec_push(&mut v, self.4);
        args_vec_push(&mut v, self.5);
        args_vec_push(&mut v, self.6);
        args_vec_push(&mut v, self.7);
        args_vec_push(&mut v, self.8);
        args_vec_push(&mut v, self.9);
        args_vec_push(&mut v, self.10);
        args_vec_push(&mut v, self.11);
        args_vec_push(&mut v, self.12);
        args_vec_push(&mut v, self.13);
        proof {
            assert(args_vec_items(v) =~= self.arg_handles());
        }
        v
    }
}

impl Arguments for (u64, u64, u64, u64, u64, u64, u64, u64, u64, u64, u64, u64, u64, u64, u64) {
    open spec fn arg_handles(&self) -> Seq<u64> {
        seq![self.0, self.1, self.2, self.3, self.4, self.5, self.6, self.7, self.8, self.9, self.10, self.11, self.12, self.13, self.14]
    }

    fn into_args_vec(self) -> (r: ArgsVec) {
        let mut v = args_vec_new();
        args_vec_push(&mut v, self.0);
        args_vec_push(&mut v, self.1);
        args_vec_push(&mut v, self.2);
        args_vec_push(&mut v, self.3);
        args_vec_push(&mut v, self.4);
        args_vec_push(&mut v, self.5);
        args_vec_push(&mut v, self.6);
        args_vec_push(&mut v, self.7);
        args_vec_push(&mut v, self.8);
        args_vec_push(&mut v, self.9);
        args_vec_push(&mut v, self.10);
        args_vec_push(&mut v, self.11);
        args_vec_push(&mut v, self.12);
        args_vec_push(&mut v, self.13);
        args_vec_push(&mut v, self.14);
        proof {
            assert(args_vec_items(v) =~= self.arg_handles());
        }
        v
    }
}

impl Arguments for (u64, u64, u64, u64, u64, u64, u64, u64, u64, u64, u64, u64, u64, u64, u64, u64) {
    open spec fn arg_handles(&self) -> Seq<u64> {
        seq![self.0, self.1, self.2, self.3, self.4, self.5, self.6, self.7, self.8, self.9, self.10, self.11, self.12, self.13, self.14, self.15]
    }

    fn into_args_vec(self) -> (r: ArgsVec) {
        let mut v = args_vec_new();
        args_vec_push(&mut v, self.0);
        args_vec_push(&mut v, self.1);
        args_vec_push(&mut v, self.2);
        args_vec_push(&mut v, self.3);
        args_vec_push(&mut v, self.4);
        args_vec_push(&mut v, self.5);
        args_vec_push(&mut v, self.6);
        args_vec_push(&mut v, self.7);
        args_vec_push(&mut v, self.8);
        args_vec_push(&mut v, self.9);
        args_vec_push(&mut v, self.10);
        args_vec_push(&mut v, self.11);
        args_vec_push(&mut v, self.12);
        args_vec_push(&mut v, self.13);
        args_vec_push(&mut v, self.14);
        args_vec_push(&mut v, self.15);
        proof {
            assert(args_vec_items(v) =~= self.arg_handles());
        }
        v
    }
}

impl Arguments for (u64, u64, u64, u64, u64, u64, u64, u64, u64, u64, u64, u64, u64, u64, u64, u64, u64) {
    open spec fn arg_handles(&self) -> Seq<u64> {
        seq![self.0, self.1, self.2, self.3, self.4, self.5, self.6, self.7, self.8, self.9, self.10, self.11, self.12, self.13, self.14, self.15, self.16]
    }

    fn into_args_vec(self) -> (r: ArgsVec) {
        let mut v = args_vec_new();
        args_vec_push(&mut v, self.0);
        args_vec_push(&mut v, self.1);
        args_vec_push(&mut v, self.2);
        args_vec_push(&mut v, self.3);
        args_vec_push(&mut v, self.4);
        args_vec_push(&mut v, self.5);
        args_vec_push(&mut v, self.6);
        args_vec_push(&mut v, self.7);
        args_vec_push(&mut v, self.8);
        args_vec_push(&mut v, self.9);
        args_vec_push(&mut v, self.10);
        args_vec_push(&mut v, self.11);
        args_vec_push(&mut v, self.12);
        args_vec_push(&mut v, self.13);
        args_vec_push(&mut v, self.14);
        args_vec_push(&mut v, self.15);
        args_vec_push(&mut v, self.16);
        proof {
            assert(args_vec_items(v) =~= self.arg_handles());
        }
        v
    }
}

impl Arguments for (u64, u64, u64, u64, u64, u64, u64, u64, u64, u64, u64, u64, u64, u64, u64, u64, u64, u64) {
    open spec fn arg_handles(&self) -> Seq<u64> {
        seq![self.0, self.1, self.2, self.3, self.4, self.5, self.6, self.7, self.8, self.9, self.10, self.11, self.12, self.13, self.14, self.15, self.16, self.17]
    }

    fn into_args_vec(self) -> (r: ArgsVec) {
        let mut v = args_vec_new();
        args_vec_push(&mut v, self.0);
        args_vec_push(&mut v, self.1);
        args_vec_push(&mut v, self.2);
        args_vec_push(&mut v, self.3);
        args_vec_push(&mut v, self.4);
        args_vec_push(&mut v, self.5);
        args_vec_push(&mut v, self.6);
        args_vec_push(&mut v, self.7);
        args_vec_push(&mut v, self.8);
        args_vec_push(&mut v, self.9);
        args_vec_push(&mut v, self.10);
        args_vec_push(&mut v, self.11);
        args_vec_push(&mut v, self.12);
        args_vec_push(&mut v, self.13);
        args_vec_push(&mut v, self.14);
        args_vec_push(&mut v, self.15);
        args_vec_push(&mut v, self.16);
        args_vec_push(&mut v, self.17);
        proof {
            assert(args_vec_items(v) =~= self.arg_handles());
        }
        v
    }
}

impl Arguments for (u64, u64, u64, u64, u64, u64, u64, u64, u64, u64, u64, u64, u64, u64, u64, u64, u64, u64, u64) {
    open spec fn arg_handles(&self) -> Seq<u64> {
        seq![self.0, self.1, self.2, self.3, self.4, self.5, self.6, self.7, self.8, self.9, self.10, self.11, self.12, self.13, self.14, self.15, self.16, self.17, self.18]
    }

    fn into_args_vec(self) -> (r: ArgsVec) {
        let mut v = args_vec_new();
        args_vec_push(&mut v, self.0);
        args_vec_push(&mut v, self.1);
        args_vec_push(&mut v, self.2);
        args_vec_push(&mut v, self.3);
        args_vec_push(&mut v, self.4);
        args_vec_push(&mut v, self.5);
        args_vec_push(&mut v, self.6);
        args_vec_push(&mut v, self.7);
        args_vec_push(&mut v, self.8);
        args_vec_push(&mut v, self.9);
        args_vec_push(&mut v, self.10);
        args_vec_push(&mut v, self.11);
        args_vec_push(&mut v, self.12);
        args_vec_push(&mut v, self.13);
        args_vec_push(&mut v, self.14);
        args_vec_push(&mut v, self.15);
        args_vec_push(&mut v, self.16);
        args_vec_push(&mut v, self.17);
        args_vec_push(&mut v, self.18);
        proof {
            assert(args_vec_items(v) =~= self.arg_handles());
        }
        v
    }
}

impl Arguments for (u64, u64, u64, u64, u64, u64, u64, u64, u64, u64, u64, u64, u64, u64, u64, u64, u64, u64, u64, u64) {
    open spec fn arg_handles(&self) -> Seq<u64> {
        seq![self.0, self.1, self.2, self.3, self.4, self.5, self.6, self.7, self.8, self.9, self.10, self.11, self.12, self.13, self.14, self.15, self.16, self.17, self.18, self.19]
    }

    fn into_args_vec(self) -> (r: ArgsVec) {
        let mut v = args_vec_new();
        args_vec_push(&mut v, self.0);
        args_vec_push(&mut v, self.1);
        args_vec_push(&mut v, self.2);
        args_vec_push(&mut v, self.3);
        args_vec_push(&mut v, self.4);
        args_vec_push(&mut v, self.5);
        args_vec_push(&mut v, self.6);
        args_vec_push(&mut v, self.7);
        args_vec_push(&mut v, self.8);
        args_vec_push(&mut v, self.9);
        args_vec_push(&mut v, self.10);
        args_vec_push(&mut v, self.11);
        args_vec_push(&mut v, self.12);
        args_vec_push(&mut v, self.13);
        args_vec_push(&mut v, self.14);
        args_vec_push(&mut v, self.15);
        args_vec_push(&mut v, self.16);
        args_vec_push(&mut v, self.17);
        args_vec_push(&mut v, self.18);
        args_vec_push(&mut v, self.19);
        proof {
            assert(args_vec_items(v) =~= self.arg_handles());
        }
        v
    }
}

impl Arguments for (u64, u64, u64, u64, u64, u64, u64, u64, u64, u64, u64, u64, u64, u64, u64, u64, u64, u64, u64, u64, u64) {
    open spec fn arg_handles(&self) -> Seq<u64> {
        seq![self.0, self.1, self.2, self.3, self.4, self.5, self.6, self.7, self.8, self.9, self.10, self.11, self.12, self.13, self.14, self.15, self.16, self.17, self.18, self.19, self.20]
    }

    fn into_args_vec(self) -> (r: ArgsVec) {
        let mut v = args_vec_new();
        args_vec_push(&mut v, self.0);
        args_vec_push(&mut v, self.1);
        args_vec_push(&mut v, self.2);
        args_vec_push(&mut v, self.3);
        args_vec_push(&mut v, self.4);
        args_vec_push(&mut v, self.5);
        args_vec_push(&mut v, self.6);
        args_vec_push(&mut v, self.7);
        args_vec_push(&mut v, self.8);
        args_vec_push(&mut v, self.9);
        args_vec_push(&mut v, self.10);
        args_vec_push(&mut v, self.11);
        args_vec_push(&mut v, self.12);
        args_vec_push(&mut v, self.13);
        args_vec_push(&mut v, self.14);
        args_vec_push(&mut v, self.15);
        args_vec_push(&mut v, self.16);
        args_vec_push(&mut v, self.17);
        args_vec_push(&mut v, self.18);
        args_vec_push(&mut v, self.19);
        args_vec_push(&mut v, self.20);
        proof {
            assert(args_vec_items(v) =~= self.arg_handles());
        }
        v
    }
}

impl Arguments for (u64, u64, u64, u64, u64, u64, u64, u64, u64, u64, u64, u64, u64, u64, u64, u64, u64, u64, u64, u64, u64, u64) {
    open spec fn arg_handles(&self) -> Seq<u64> {
        seq![self.0, self.1, self.2, self.3, self.4, self.5, self.6, self.7, self.8, self.9, self.10, self.11, self.12, self.13, self.14, self.15, self.16, self.17, self.18, self.19, self.20, self.21]
    }

    fn into_args_vec(self) -> (r: ArgsVec) {
        let mut v = args_vec_new();
        args_vec_push(&mut v, self.0);
        args_vec_push(&mut v, self.1);
        args_vec_push(&mut v, self.2);
        args_vec_push(&mut v, self.3);
        args_vec_push(&mut v, self.4);
        args_vec_push(&mut v, self.5);
        args_vec_push(&mut v, self.6);
        args_vec_push(&mut v, self.7);
        args_vec_push(&mut v, self.8);
        args_vec_push(&mut v, self.9);
        args_vec_push(&mut v, self.10);
        args_vec_push(&mut v, self.11);
        args_vec_push(&mut v, self.12);
        args_vec_push(&mut v, self.13);
        args_vec_push(&mut v, self.14);
        args_vec_push(&mut v, self.15);
        args_vec_push(&mut v, self.16);
        args_vec_push(&mut v, self.17);
        args_vec_push(&mut v, self.18);
        args_vec_push(&mut v, self.19);
        args_vec_push(&mut v, self.20);
        args_vec_push(&mut v, self.21);
        proof {
            assert(args_vec_items(v) =~= self.arg_handles());
        }
        v
    }
}

impl Arguments for (u64, u64, u64, u64, u64, u64, u64, u64, u64, u64, u64, u64, u64, u64, u64, u64, u64, u64, u64, u64, u64, u64, u64) {
    open spec fn arg_handles(&self) -> Seq<u64> {
        seq![self.0, self.1, self.2, self.3, self.4, self.5, self.6, self.7, self.8, self.9, self.10, self.11, self.12, self.13, self.14, self.15, self.16, self.17, self.18, self.19, self.20, self.21, self.22]
    }

    fn into_args_vec(self) -> (r: ArgsVec) {
        let mut v = args_vec_new();
        args_vec_push(&mut v, self.0);
        args_vec_push(&mut v, self.1);
        args_vec_push(&mut v, self.2);
        args_vec_push(&mut v, self.3);
        args_vec_push(&mut v, self.4);
        args_vec_push(&mut v, self.5);
        args_vec_push(&mut v, self.6);
        args_vec_push(&mut v, self.7);
        args_vec_push(&mut v, self.8);
        args_vec_push(&mut v, self.9);
        args_vec_push(&mut v, self.10);
        args_vec_push(&mut v, self.11);
        args_vec_push(&mut v, self.12);
        args_vec_push(&mut v, self.13);
        args_vec_push(&mut v, self.14);
        args_vec_push(&mut v, self.15);
        args_vec_push(&mut v, self.16);
        args_vec_push(&mut v, self.17);
        args_vec_push(&mut v, self.18);
        args_vec_push(&mut v, self.19);
        args_vec_push(&mut v, self.20);
        args_vec_push(&mut v, self.21);
        args_vec_push(&mut v, self.22);
        proof {
            assert(args_vec_items(v) =~= self.arg_handles());
        }
        v
    }
}

impl Arguments for (u64, u64, u64, u64, u64, u64, u64, u64, u64, u64, u64, u64, u64, u64, u64, u64, u64, u64, u64, u64, u64, u64, u64, u64) {
    open spec fn arg_handles(&self) -> Seq<u64> {
        seq![self.0, self.1, self.2, self.3, self.4, self.5, self.6, self.7, self.8, self.9, self.10, self.11, self.12, self.13, self.14, self.15, self.16, self.17, self.18, self.19, self.20, self.21, self.22, self.23]
    }

    fn into_args_vec(self) -> (r: ArgsVec) {
        let mut v = args_vec_new();
        args_vec_push(&mut v, self.0);
        args_vec_push(&mut v, self.1);
        args_vec_push(&mut v, self.2);
        args_vec_push(&mut v, self.3);
        args_vec_push(&mut v, self.4);
        args_vec_push(&mut v, self.5);
        args_vec_push(&mut v, self.6);
        args_vec_push(&mut v, self.7);
        args_vec_push(&mut v, self.8);
        args_vec_push(&mut v, self.9);
        args_vec_push(&mut v, self.10);
        args_vec_push(&mut v, self.11);
        args_vec_push(&mut v, self.12);
        args_vec_push(&mut v, self.13);
        args_vec_push(&mut v, self.14);
        args_vec_push(&mut v, self.15);
        args_vec_push(&mut v, self.16);
        args_vec_push(&mut v, self.17);
        args_vec_push(&mut v, self.18);
        args_vec_push(&mut v, self.19);
        args_vec_push(&mut v, self.20);
        args_vec_push(&mut v, self.21);
        args_vec_push(&mut v, self.22);
        args_vec_push(&mut v, self.23);
        proof {
            assert(args_vec_items(v) =~= self.arg_handles());
        }
        v
    }
}

impl Arguments for (u64, u64, u64, u64, u64, u64, u64, u64, u64, u64, u64, u64, u64, u64, u64, u64, u64, u64, u64, u64, u64, u64, u64, u64, u64) {
    open spec fn arg_handles(&self) -> Seq<u64> {
        seq![self.0, self.1, self.2, self.3, self.4, self.5, self.6, self.7, self.8, self.9, self.10, self.11, self.12, self.13, self.14, self.15, self.16, self.17, self.18, self.19, self.20, self.21, self.22, self.23, self.24]
    }

    fn into_args_vec(self) -> (r: ArgsVec) {
        let mut v = args_vec_new();
        args_vec_push(&mut v, self.0);
        args_vec_push(&mut v, self.1);
        args_vec_push(&mut v, self.2);
        args_vec_push(&mut v, self.3);
        args_vec_push(&mut v, self.4);
        args_vec_push(&mut v, self.5);
        args_vec_push(&mut v, self.6);
        args_vec_push(&mut v, self.7);
        args_vec_push(&mut v, self.8);
        args_vec_push(&mut v, self.9);
        args_vec_push(&mut v, self.10);
        args_vec_push(&mut v, self.11);
        args_vec_push(&mut v, self.12);
        args_vec_push(&mut v, self.13);
        args_vec_push(&mut v, self.14);
        args_vec_push(&mut v, self.15);
        args_vec_push(&mut v, self.16);
        args_vec_push(&mut v, self.17);
        args_vec_push(&mut v, self.18);
        args_vec_push(&mut v, self.19);
        args_vec_push(&mut v, self.20);
        args_vec_push(&mut v, self.21);
        args_vec_push(&mut v, self.22);
        args_vec_push(&mut v, self.23);
        args_vec_push(&mut v, self.24);
        proof {
            assert(args_vec_items(v) =~= self.arg_handles());
        }
        v
    }
}

impl Arguments for (u64, u64, u64, u64, u64, u64, u64, u64, u64, u64, u64, u64, u64, u64, u64, u64, u64, u64, u64, u64, u64, u64, u64, u64, u64, u64) {
    open spec fn arg_handles(&self) -> Seq<u64> {
        seq![self.0, self.1, self.2, self.3, self.4, self.5, self.6, self.7, self.8, self.9, self.10, self.11, self.12, self.13, self.14, self.15, self.16, self.17, self.18, self.19, self.20, self.21, self.22, self.23, self.24, self.25]
    }

    fn into_args_vec(self) -> (r: ArgsVec) {
        let mut v = args_vec_new();
        args_vec_push(&mut v, self.0);
        args_vec_push(&mut v, self.1);
        args_vec_push(&mut v, self.2);
        args_vec_push(&mut v, self.3);
        args_vec_push(&mut v, self.4);
        args_vec_push(&mut v, self.5);
        args_vec_push(&mut v, self.6);
        args_vec_push(&mut v, self.7);
        args_vec_push(&mut v, self.8);
        args_vec_push(&mut v, self.9);
        args_vec_push(&mut v, self.10);
        args_vec_push(&mut v, self.11);
        args_vec_push(&mut v, self.12);
        args_vec_push(&mut v, self.13);
        args_vec_push(&mut v, self.14);
        args_vec_push(&mut v, self.15);
        args_vec_push(&mut v, self.16);
        args_vec_push(&mut v, self.17);
        args_vec_push(&mut v, self.18);
        args_vec_push(&mut v, self.19);
        args_vec_push(&mut v, self.20);
        args_vec_push(&mut v, self.21);
        args_vec_push(&mut v, self.22);
        args_vec_push(&mut v, self.23);
        args_vec_push(&mut v, self.24);
        args_vec_push(&mut v, self.25);
        proof {
            assert(args_vec_items(v) =~= self.arg_handles());
        }
        v
    }
}

impl Arguments for (u64, u64, u64, u64, u64, u64, u64, u64, u64, u64, u64, u64, u64, u64, u64, u64, u64, u64, u64, u64, u64, u64, u64, u64, u64, u64, u64) {
    open spec fn arg_handles(&self) -> Seq<u64> {
        seq![self.0, self.1, self.2, self.3, self.4, self.5, self.6, self.7, self.8, self.9, self.10, self.11, self.12, self.13, self.14, self.15, self.16, self.17, self.18, self.19, self.20, self.21, self.22, self.23, self.24, self.25, self.26]
    }

    fn into_args_vec(self) -> (r: ArgsVec) {
        let mut v = args_vec_new();
        args_vec_push(&mut v, self.0);
        args_vec_push(&mut v, self.1);
        args_vec_push(&mut v, self.2);
        args_vec_push(&mut v, self.3);
        args_vec_push(&mut v, self.4);
        args_vec_push(&mut v, self.5);
        args_vec_push(&mut v, self.6);
        args_vec_push(&mut v, self.7);
        args_vec_push(&mut v, self.8);
        args_vec_push(&mut v, self.9);
        args_vec_push(&mut v, self.10);
        args_vec_push(&mut v, self.11);
        args_vec_push(&mut v, self.12);
        args_vec_push(&mut v, self.13);
        args_vec_push(&mut v, self.14);
        args_vec_push(&mut v, self.15);
        args_vec_push(&mut v, self.16);
        args_vec_push(&mut v, self.17);
        args_vec_push(&mut v, self.18);
        args_vec_push(&mut v, self.19);
        args_vec_push(&mut v, self.20);
        args_vec_push(&mut v, self.21);
        args_vec_push(&mut v, self.22);
        args_vec_push(&mut v, self.23);
        args_vec_push(&mut v, self.24);
        args_vec_push(&mut v, self.25);
        args_vec_push(&mut v, self.26);
        proof {
            assert(args_vec_items(v) =~= self.arg_handles());
        }
        v
    }
}

impl Arguments for (u64, u64, u64, u64, u64, u64, u64, u64, u64, u64, u64, u64, u64, u64, u64, u64, u64, u64, u64, u64, u64, u64, u64, u64, u64, u64, u64, u64) {
    open spec fn arg_handles(&self) -> Seq<u64> {
        seq![self.0, self.1, self.2, self.3, self.4, self.5, self.6, self.7, self.8, self.9, self.10, self.11, self.12, self.13, self.14, self.15, self.16, self.17, self.18, self.19, self.20, self.21, self.22, self.23, self.24, self.25, self.26, self.27]
    }

    fn into_args_vec(self) -> (r: ArgsVec) {
        let mut v = args_vec_new();
        args_vec_push(&mut v, self.0);
        args_vec_push(&mut v, self.1);
        args_vec_push(&mut v, self.2);
        args_vec_push(&mut v, self.3);
        args_vec_push(&mut v, self.4);
        args_vec_push(&mut v, self.5);
        args_vec_push(&mut v, self.6);
        args_vec_push(&mut v, self.7);
        args_vec_push(&mut v, self.8);
        args_vec_push(&mut v, self.9);
        args_vec_push(&mut v, self.10);
        args_vec_push(&mut v, self.11);
        args_vec_push(&mut v, self.12);
        args_vec_push(&mut v, self.13);
        args_vec_push(&mut v, self.14);
        args_vec_push(&mut v, self.15);
        args_vec_push(&mut v, self.16);
        args_vec_push(&mut v, self.17);
        args_vec_push(&mut v, self.18);
        args_vec_push(&mut v, self.19);
        args_vec_push(&mut v, self.20);
        args_vec_push(&mut v, self.21);
        args_vec_push(&mut v, self.22);
        args_vec_push(&mut v, self.23);
        args_vec_push(&mut v, self.24);
        args_vec_push(&mut v, self.25);
        args_vec_push(&mut v, self.26);
        args_vec_push(&mut v, self.27);
        proof {
            assert(args_vec_items(v) =~= self.arg_handles());
        }
        v
    }
}

impl Arguments for (u64, u64, u64, u64, u64, u64, u64, u64, u64, u64, u64, u64, u64, u64, u64, u64, u64, u64, u64, u64, u64, u64, u64, u64, u64, u64, u64, u64, u64) {
    open spec fn arg_handles(&self) -> Seq<u64> {
        seq![self.0, self.1, self.2, self.3, self.4, self.5, self.6, self.7, self.8, self.9, self.10, self.11, self.12, self.13, self.14, self.15, self.16, self.17, self.18, self.19, self.20, self.21, self.22, self.23, self.24, self.25, self.26, self.27, self.28]
    }

    fn into_args_vec(self) -> (r: ArgsVec) {
        let mut v = args_vec_new();
        args_vec_push(&mut v, self.0);
        args_vec_push(&mut v, self.1);
        args_vec_push(&mut v, self.2);
        args_vec_push(&mut v, self.3);
        args_vec_push(&mut v, self.4);
        args_vec_push(&mut v, self.5);
        args_vec_push(&mut v, self.6);
        args_vec_push(&mut v, self.7);
        args_vec_push(&mut v, self.8);
        args_vec_push(&mut v, self.9);
        args_vec_push(&mut v, self.10);
        args_vec_push(&mut v, self.11);
        args_vec_push(&mut v, self.12);
        args_vec_push(&mut v, self.13);
        args_vec_push(&mut v, self.14);
        args_vec_push(&mut v, self.15);
        args_vec_push(&mut v, self.16);
        args_vec_push(&mut v, self.17);
        args_vec_push(&mut v, self.18);
        args_vec_push(&mut v, self.19);
        args_vec_push(&mut v, self.20);
        args_vec_push(&mut v, self.21);
        args_vec_push(&mut v, self.22);
        args_vec_push(&mut v, self.23);
        args_vec_push(&mut v, self.24);
        args_vec_push(&mut v, self.25);
        args_vec_push(&mut v, self.26);
        args_vec_push(&mut v, self.27);
        args_vec_push(&mut v, self.28);
        proof {
            assert(args_vec_items(v) =~= self.arg_handles());
        }
        v
    }
}

impl Arguments for (u64, u64, u64, u64, u64, u64, u64, u64, u64, u64, u64, u64, u64, u64, u64, u64, u64, u64, u64, u64, u64, u64, u64, u64, u64, u64, u64, u64, u64, u64) {
    open spec fn arg_handles(&self) -> Seq<u64> {
        seq![self.0, self.1, self.2, self.3, self.4, self.5, self.6, self.7, self.8, self.9, self.10, self.11, self.12, self.13, self.14, self.15, self.16, self.17, self.18, self.19, self.20, self.21, self.22, self.23, self.24, self.25, self.26, self.27, self.28, self.29]
    }

    fn into_args_vec(self) -> (r: ArgsVec) {
        let mut v = args_vec_new();
        args_vec_push(&mut v, self.0);
        args_vec_push(&mut v, self.1);
        args_vec_push(&mut v, self.2);
        args_vec_push(&mut v, self.3);
        args_vec_push(&mut v, self.4);
        args_vec_push(&mut v, self.5);
        args_vec_push(&mut v, self.6);
        args_vec_push(&mut v, self.7);
        args_vec_push(&mut v, self.8);
        args_vec_push(&mut v, self.9);
        args_vec_push(&mut v, self.10);
        args_vec_push(&mut v, self.11);
        args_vec_push(&mut v, self.12);
        args_vec_push(&mut v, self.13);
        args_vec_push(&mut v, self.14);
        args_vec_push(&mut v, self.15);
        args_vec_push(&mut v, self.16);
        args_vec_push(&mut v, self.17);
        args_vec_push(&mut v, self.18);
        args_vec_push(&mut v, self.19);
        args_vec_push(&mut v, self.20);
        args_vec_push(&mut v, self.21);
        args_vec_push(&mut v, self.22);
        args_vec_push(&mut v, self.23);
        args_vec_push(&mut v, self.24);
        args_vec_push(&mut v, self.25);
        args_vec_push(&mut v, self.26);
        args_vec_push(&mut v, self.27);
        args_vec_push(&mut v, self.28);
        args_vec_push(&mut v, self.29);
        proof {
            assert(args_vec_items(v) =~= self.arg_handles());
        }
        v
    }
}

impl Arguments for (u64, u64, u64, u64, u64, u64, u64, u64, u64, u64, u64, u64, u64, u64, u64, u64, u64, u64, u64, u64, u64, u64, u64, u64, u64, u64, u64, u64, u64, u64, u64) {
    open spec fn arg_handles(&self) -> Seq<u64> {
        seq![self.0, self.1, self.2, self.3, self.4, self.5, self.6, self.7, self.8, self.9, self.10, self.11, self.12, self.13, self.14, self.15, self.16, self.17, self.18, self.19, self.20, self.21, self.22, self.23, self.24, self.25, self.26, self.27, self.28, self.29, self.30]
    }

    fn into_args_vec(self) -> (r: ArgsVec) {
        let mut v = args_vec_new();
        args_vec_push(&mut v, self.0);
        args_vec_push(&mut v, self.1);
        args_vec_push(&mut v, self.2);
        args_vec_push(&mut v, self.3);
        args_vec_push(&mut v, self.4);
        args_vec_push(&mut v, self.5);
        args_vec_push(&mut v, self.6);
        args_vec_push(&mut v, self.7);
        args_vec_push(&mut v, self.8);
        args_vec_push(&mut v, self.9);
        args_vec_push(&mut v, self.10);
        args_vec_push(&mut v, self.11);
        args_vec_push(&mut v, self.12);
        args_vec_push(&mut v, self.13);
        args_vec_push(&mut v, self.14);
        args_vec_push(&mut v, self.15);
        args_vec_push(&mut v, self.16);
        args_vec_push(&mut v, self.17);
        args_vec_push(&mut v, self.18);
        args_vec_push(&mut v, self.19);
        args_vec_push(&mut v, self.20);
        args_vec_push(&mut v, self.21);
        args_vec_push(&mut v, self.22);
        args_vec_push(&mut v, self.23);
        args_vec_push(&mut v, self.24);
        args_vec_push(&mut v, self.25);
        args_vec_push(&mut v, self.26);
        args_vec_push(&mut v, self.27);
        args_vec_push(&mut v, self.28);
        args_vec_push(&mut v, self.29);
        args_vec_push(&mut v, self.30);
        proof {
            assert(args_vec_items(v) =~= self.arg_handles());
        }
        v
    }
}

impl Arguments for (u64, u64, u64, u64, u64, u64, u64, u64, u64, u64, u64, u64, u64, u64, u64, u64, u64, u64, u64, u64, u64, u64, u64, u64, u64, u64, u64, u64, u64, u64, u64, u64) {
    open spec fn arg_handles(&self) -> Seq<u64> {
        seq![self.0, self.1, self.2, self.3, self.4, self.5, self.6, self.7, self.8, self.9, self.10, self.11, self.12, self.13, self.14, self.15, self.16, self.17, self.18, self.19, self.20, self.21, self.22, self.23, self.24, self.25, self.26, self.27, self.28, self.29, self.30, self.31]
    }

    fn into_args_vec(self) -> (r: ArgsVec) {
        let mut v = args_vec_new();
        args_vec_push(&mut v, self.0);
        args_vec_push(&mut v, self.1);
        args_vec_push(&mut v, self.2);
        args_vec_push(&mut v, self.3);
        args_vec_push(&mut v, self.4);
        args_vec_push(&mut v, self.5);
        args_vec_push(&mut v, self.6);
        args_vec_push(&mut v, self.7);
        args_vec_push(&mut v, self.8);
        args_vec_push(&mut v, self.9);
        args_vec_push(&mut v, self.10);
        args_vec_push(&mut v, self.11);
        args_vec_push(&mut v, self.12);
        args_vec_push(&mut v, self.13);
        args_vec_push(&mut v, self.14);
        args_vec_push(&mut v, self.15);
        args_vec_push(&mut v, self.16);
        args_vec_push(&mut v, self.17);
        args_vec_push(&mut v, self.18);
        args_vec_push(&mut v, self.19);
        args_vec_push(&mut v, self.20);
        args_vec_push(&mut v, self.21);
        args_vec_push(&mut v, self.22);
        args_vec_push(&mut v, self.23);
        args_vec_push(&mut v, self.24);
        args_vec_push(&mut v, self.25);
        args_vec_push(&mut v, self.26);
        args_vec_push(&mut v, self.27);
        args_vec_push(&mut v, self.28);
        args_vec_push(&mut v, self.29);
        args_vec_push(&mut v, self.30);
        args_vec_push(&mut v, self.31);
        proof {
            assert(args_vec_items(v) =~= self.arg_handles());
        }
        v
    }
}
/// Arguments are passed in order: whatever the number of handles, the
/// handle at position `k` of a tuple is the `k`-th argument gathered, and
/// a `Vec` of handles is gathered as it stands; `()` passes none.
pub proof fn lemma_arguments_in_order(h: Seq<u64>, v: Vec<u64>)
    requires
        h.len() == 32,
    ensures
        Arguments::arg_handles(&()) == Seq::<u64>::empty(),
        Arguments::arg_handles(&v) == v@,
        Arguments::arg_handles(&(h[0],)) == h.take(1),
        Arguments::arg_handles(&(h[0], h[1])) == h.take(2),
        Arguments::arg_handles(&(h[0], h[1], h[2])) == h.take(3),
        Arguments::arg_handles(&(h[0], h[1], h[2], h[3])) == h.take(4),
        Arguments::arg_handles(&(h[0], h[1], h[2], h[3], h[4])) == h.take(5),
        Arguments::arg_handles(&(h[0], h[1], h[2], h[3], h[4], h[5])) == h.take(6),
        Arguments::arg_handles(&(h[0], h[1], h[2], h[3], h[4], h[5], h[6])) == h.take(7),
        Arguments::arg_handles(&(h[0], h[1], h[2], h[3], h[4], h[5], h[6], h[7])) == h.take(8),
        Arguments::arg_handles(&(h[0], h[1], h[2], h[3], h[4], h[5], h[6], h[7], h[8])) == h.take(9),
        Arguments::arg_handles(&(h[0], h[1], h[2], h[3], h[4], h[5], h[6], h[7], h[8], h[9])) == h.take(10),
        Arguments::arg_handles(&(h[0], h[1], h[2], h[3], h[4], h[5], h[6], h[7], h[8], h[9], h[10])) == h.take(11),
        Arguments::arg_handles(&(h[0], h[1], h[2], h[3], h[4], h[5], h[6], h[7], h[8], h[9], h[10], h[11])) == h.take(12),
        Arguments::arg_handles(&(h[0], h[1], h[2], h[3], h[4], h[5], h[6], h[7], h[8], h[9], h[10], h[11], h[12])) == h.take(13),
        Arguments::arg_handles(&(h[0], h[1], h[2], h[3], h[4], h[5], h[6], h[7], h[8], h[9], h[10], h[11], h[12], h[13])) == h.take(14),
        Arguments::arg_handles(&(h[0], h[1], h[2], h[3], h[4], h[5], h[6], h[7], h[8], h[9], h[10], h[11], h[12], h[13], h[14])) == h.take(15),
        Arguments::arg_handles(&(h[0], h[1], h[2], h[3], h[4], h[5], h[6], h[7], h[8], h[9], h[10], h[11], h[12], h[13], h[14], h[15])) == h.take(16),
        Arguments::arg_handles(&(h[0], h[1], h[2], h[3], h[4], h[5], h[6], h[7], h[8], h[9], h[10], h[11], h[12], h[13], h[14], h[15], h[16])) == h.take(17),
        Arguments::arg_handles(&(h[0], h[1], h[2], h[3], h[4], h[5], h[6], h[7], h[8], h[9], h[10], h[11], h[12], h[13], h[14], h[15], h[16], h[17])) == h.take(18),
        Arguments::arg_handles(&(h[0], h[1], h[2], h[3], h[4], h[5], h[6], h[7], h[8], h[9], h[10], h[11], h[12], h[13], h[14], h[15], h[16], h[17], h[18])) == h.take(19),
        Arguments::arg_handles(&(h[0], h[1], h[2], h[3], h[4], h[5], h[6], h[7], h[8], h[9], h[10], h[11], h[12], h[13], h[14], h[15], h[16], h[17], h[18], h[19])) == h.take(20),
        Arguments::arg_handles(&(h[0], h[1], h[2], h[3], h[4], h[5], h[6], h[7], h[8], h[9], h[10], h[11], h[12], h[13], h[14], h[15], h[16], h[17], h[18], h[19], h[20])) == h.take(21),
        Arguments::arg_handles(&(h[0], h[1], h[2], h[3], h[4], h[5], h[6], h[7], h[8], h[9], h[10], h[11], h[12], h[13], h[14], h[15], h[16], h[17], h[18], h[19], h[20], h[21])) == h.take(22),
        Arguments::arg_handles(&(h[0], h[1], h[2], h[3], h[4], h[5], h[6], h[7], h[8], h[9], h[10], h[11], h[12], h[13], h[14], h[15], h[16], h[17], h[18], h[19], h[20], h[21], h[22])) == h.take(23),
        Arguments::arg_handles(&(h[0], h[1], h[2], h[3], h[4], h[5], h[6], h[7], h[8], h[9], h[10], h[11], h[12], h[13], h[14], h[15], h[16], h[17], h[18], h[19], h[20], h[21], h[22], h[23])) == h.take(24),
        Arguments::arg_handles(&(h[0], h[1], h[2], h[3], h[4], h[5], h[6], h[7], h[8], h[9], h[10], h[11], h[12], h[13], h[14], h[15], h[16], h[17], h[18], h[19], h[20], h[21], h[22], h[23], h[24])) == h.take(25),
        Arguments::arg_handles(&(h[0], h[1], h[2], h[3], h[4], h[5], h[6], h[7], h[8], h[9], h[10], h[11], h[12], h[13], h[14], h[15], h[16], h[17], h[18], h[19], h[20], h[21], h[22], h[23], h[24], h[25])) == h.take(26),
        Arguments::arg_handles(&(h[0], h[1], h[2], h[3], h[4], h[5], h[6], h[7], h[8], h[9], h[10], h[11], h[12], h[13], h[14], h[15], h[16], h[17], h[18], h[19], h[20], h[21], h[22], h[23], h[24], h[25], h[26])) == h.take(27),
        Arguments::arg_handles(&(h[0], h[1], h[2], h[3], h[4], h[5], h[6], h[7], h[8], h[9], h[10], h[11], h[12], h[13], h[14], h[15], h[16], h[17], h[18], h[19], h[20], h[21], h[22], h[23], h[24], h[25], h[26], h[27])) == h.take(28),
        Arguments::arg_handles(&(h[0], h[1], h[2], h[3], h[4], h[5], h[6], h[7], h[8], h[9], h[10], h[11], h[12], h[13], h[14], h[15], h[16], h[17], h[18], h[19], h[20], h[21], h[22], h[23], h[24], h[25], h[26], h[27], h[28])) == h.take(29),
        Arguments::arg_handles(&(h[0], h[1], h[2], h[3], h[4], h[5], h[6], h[7], h[8], h[9], h[10], h[11], h[12], h[13], h[14], h[15], h[16], h[17], h[18], h[19], h[20], h[21], h[22], h[23], h[24], h[25], h[26], h[27], h[28], h[29])) == h.take(30),
        Arguments::arg_handles(&(h[0], h[1], h[2], h[3], h[4], h[5], h[6], h[7], h[8], h[9], h[10], h[11], h[12], h[13], h[14], h[15], h[16], h[17], h[18], h[19], h[20], h[21], h[22], h[23], h[24], h[25], h[26], h[27], h[28], h[29], h[30])) == h.take(31),
        Arguments::arg_handles(&(h[0], h[1], h[2], h[3], h[4], h[5], h[6], h[7], h[8], h[9], h[10], h[11], h[12], h[13], h[14], h[15], h[16], h[17], h[18], h[19], h[20], h[21], h[22], h[23], h[24], h[25], h[26], h[27], h[28], h[29], h[30], h[31])) == h.take(32),
{
    assert(Arguments::arg_handles(&(h[0],)) =~= h.take(1));
    assert(Arguments::arg_handles(&(h[0], h[1])) =~= h.take(2));
    assert(Arguments::arg_handles(&(h[0], h[1], h[2])) =~= h.take(3));
    assert(Arguments::arg_handles(&(h[0], h[1], h[2], h[3])) =~= h.take(4));
    assert(Arguments::arg_handles(&(h[0], h[1], h[2], h[3], h[4])) =~= h.take(5));
    assert(Arguments::arg_handles(&(h[0], h[1], h[2], h[3], h[4], h[5])) =~= h.take(6));
    assert(Arguments::arg_handles(&(h[0], h[1], h[2], h[3], h[4], h[5], h[6])) =~= h.take(7));
    assert(Arguments::arg_handles(&(h[0], h[1], h[2], h[3], h[4], h[5], h[6], h[7])) =~= h.take(8));
    assert(Arguments::arg_handles(&(h[0], h[1], h[2], h[3], h[4], h[5], h[6], h[7], h[8])) =~= h.take(9));
    assert(Arguments::arg_handles(&(h[0], h[1], h[2], h[3], h[4], h[5], h[6], h[7], h[8], h[9])) =~= h.take(10));
    assert(Arguments::arg_handles(&(h[0], h[1], h[2], h[3], h[4], h[5], h[6], h[7], h[8], h[9], h[10])) =~= h.take(11));
    assert(Arguments::arg_handles(&(h[0], h[1], h[2], h[3], h[4], h[5], h[6], h[7], h[8], h[9], h[10], h[11])) =~= h.take(12));
    assert(Arguments::arg_handles(&(h[0], h[1], h[2], h[3], h[4], h[5], h[6], h[7], h[8], h[9], h[10], h[11], h[12])) =~= h.take(13));
    assert(Arguments::arg_handles(&(h[0], h[1], h[2], h[3], h[4], h[5], h[6], h[7], h[8], h[9], h[10], h[11], h[12], h[13])) =~= h.take(14));
    assert(Arguments::arg_handles(&(h[0], h[1], h[2], h[3], h[4], h[5], h[6], h[7], h[8], h[9], h[10], h[11], h[12], h[13], h[14])) =~= h.take(15));
    assert(Arguments::arg_handles(&(h[0], h[1], h[2], h[3], h[4], h[5], h[6], h[7], h[8], h[9], h[10], h[11], h[12], h[13], h[14], h[15])) =~= h.take(16));
    assert(Arguments::arg_handles(&(h[0], h[1], h[2], h[3], h[4], h[5], h[6], h[7], h[8], h[9], h[10], h[11], h[12], h[13], h[14], h[15], h[16])) =~= h.take(17));
    assert(Arguments::arg_handles(&(h[0], h[1], h[2], h[3], h[4], h[5], h[6], h[7], h[8], h[9], h[10], h[11], h[12], h[13], h[14], h[15], h[16], h[17])) =~= h.take(18));
    assert(Arguments::arg_handles(&(h[0], h[1], h[2], h[3], h[4], h[5], h[6], h[7], h[8], h[9], h[10], h[11], h[12], h[13], h[14], h[15], h[16], h[17], h[18])) =~= h.take(19));
    assert(Arguments::arg_handles(&(h[0], h[1], h[2], h[3], h[4], h[5], h[6], h[7], h[8], h[9], h[10], h[11], h[12], h[13], h[14], h[15], h[16], h[17], h[18], h[19])) =~= h.take(20));
    assert(Arguments::arg_handles(&(h[0], h[1], h[2], h[3], h[4], h[5], h[6], h[7], h[8], h[9], h[10], h[11], h[12], h[13], h[14], h[15], h[16], h[17], h[18], h[19], h[20])) =~= h.take(21));
    assert(Arguments::arg_handles(&(h[0], h[1], h[2], h[3], h[4], h[5], h[6], h[7], h[8], h[9], h[10], h[11], h[12], h[13], h[14], h[15], h[16], h[17], h[18], h[19], h[20], h[21])) =~= h.take(22));
    assert(Arguments::arg_handles(&(h[0], h[1], h[2], h[3], h[4], h[5], h[6], h[7], h[8], h[9], h[10], h[11], h[12], h[13], h[14], h[15], h[16], h[17], h[18], h[19], h[20], h[21], h[22])) =~= h.take(23));
    assert(Arguments::arg_handles(&(h[0], h[1], h[2], h[3], h[4], h[5], h[6], h[7], h[8], h[9], h[10], h[11], h[12], h[13], h[14], h[15], h[16], h[17], h[18], h[19], h[20], h[21], h[22], h[23])) =~= h.take(24));
    assert(Arguments::arg_handles(&(h[0], h[1], h[2], h[3], h[4], h[5], h[6], h[7], h[8], h[9], h[10], h[11], h[12], h[13], h[14], h[15], h[16], h[17], h[18], h[19], h[20], h[21], h[22], h[23], h[24])) =~= h.take(25));
    assert(Arguments::arg_handles(&(h[0], h[1], h[2], h[3], h[4], h[5], h[6], h[7], h[8], h[9], h[10], h[11], h[12], h[13], h[14], h[15], h[16], h[17], h[18], h[19], h[20], h[21], h[22], h[23], h[24], h[25])) =~= h.take(26));
    assert(Arguments::arg_handles(&(h[0], h[1], h[2], h[3], h[4], h[5], h[6], h[7], h[8], h[9], h[10], h[11], h[12], h[13], h[14], h[15], h[16], h[17], h[18], h[19], h[20], h[21], h[22], h[23], h[24], h[25], h[26])) =~= h.take(27));
    assert(Arguments::arg_handles(&(h[0], h[1], h[2], h[3], h[4], h[5], h[6], h[7], h[8], h[9], h[10], h[11], h[12], h[13], h[14], h[15], h[16], h[17], h[18], h[19], h[20], h[21], h[22], h[23], h[24], h[25], h[26], h[27])) =~= h.take(28));
    assert(Arguments::arg_handles(&(h[0], h[1], h[2], h[3], h[4], h[5], h[6], h[7], h[8], h[9], h[10], h[11], h[12], h[13], h[14], h[15], h[16], h[17], h[18], h[19], h[20], h[21], h[22], h[23], h[24], h[25], h[26], h[27], h[28])) =~= h.take(29));
    assert(Arguments::arg_handles(&(h[0], h[1], h[2], h[3], h[4], h[5], h[6], h[7], h[8], h[9], h[10], h[11], h[12], h[13], h[14], h[15], h[16], h[17], h[18], h[19], h[20], h[21], h[22], h[23], h[24], h[25], h[26], h[27], h[28], h[29])) =~= h.take(30));
    assert(Arguments::arg_handles(&(h[0], h[1], h[2], h[3], h[4], h[5], h[6], h[7], h[8], h[9], h[10], h[11], h[12], h[13], h[14], h[15], h[16], h[17], h[18], h[19], h[20], h[21], h[22], h[23], h[24], h[25], h[26], h[27], h[28], h[29], h[30])) =~= h.take(31));
    assert(Arguments::arg_handles(&(h[0], h[1], h[2], h[3], h[4], h[5], h[6], h[7], h[8], h[9], h[10], h[11], h[12], h[13], h[14], h[15], h[16], h[17], h[18], h[19], h[20], h[21], h[22], h[23], h[24], h[25], h[26], h[27], h[28], h[29], h[30], h[31])) =~= h.take(32));
    assert(Arguments::arg_handles(&()) =~= Seq::<u64>::empty());
}

/// The argument count and the handles handed to the engine for a call with
/// the arguments `args`; a range error when there are too many.
pub fn prepare_call_args(args: ArgsVec) -> (r: Result<(i32, Vec<u64>), &'static str>)
    ensures
        r is Ok <==> args_vec_items(args).len() <= 65535,
        r matches Ok((argc, argv)) ==> argc as int == args_vec_items(args).len() && argv@
            == args_vec_items(args),
        r matches Err(m) ==> m@ == "too many arguments"@,
{
    let argc = args_vec_len(&args);
    match prepare_call(argc) {
        Ok(n) => Ok((n, args_vec_into_vec(args))),
        Err(m) => Err(m),
    }
}

} // verus!
