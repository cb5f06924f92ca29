use vstd::prelude::*;

verus! {

/// The number after `x`.
pub fn add_one(x: i32) -> (r: i32)
    requires
        x < i32::MAX,
    ensures
        r == x + 1,
{
    x + 1
}

/// Calls `f` on `arg` twice and adds up what the two calls return.
pub fn do_twice<F: Fn(i32) -> i32>(f: F, arg: i32) -> (r: i32)
    requires
        call_requires(f, (arg,)),
        forall|first: i32, second: i32|
            call_ensures(f, (arg,), first) && call_ensures(f, (arg,), second) ==> i32::MIN
                <= first + second <= i32::MAX,
    ensures
        exists|first: i32, second: i32|
            call_ensures(f, (arg,), first) && call_ensures(f, (arg,), second) && r == first
                + second,
{
    let first = f(arg);
    let second = f(arg);
    first + second
}

/// A function value that adds one to its argument.
pub fn returns_closure() -> (f: impl Fn(i32) -> i32)
    ensures
        forall|x: i32| x < i32::MAX ==> call_requires(f, (x,)),
        forall|x: i32, r: i32| call_ensures(f, (x,), r) ==> r == x + 1,
{
    |x: i32| -> (r: i32)
        requires
            x < i32::MAX,
        ensures
            r == x + 1,
        { x + 1 }
}

} // verus!
