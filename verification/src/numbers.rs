//! The integer buffer that the kernel works on.

use vstd::prelude::*;

verus! {

/// Number of integers in the buffer at startup.
pub const STARTUP_LEN: usize = 32;

/// Value of every integer in the buffer at startup.
pub const STARTUP_VALUE: i32 = 1;

/// The buffer of integers. It lives in the main world and is mirrored into
/// the render world every frame; nothing here offers a way to change it.
#[derive(Clone, Debug, PartialEq, Eq)]
pub struct MyNumbers {
    number: Vec<i32>,
}

impl View for MyNumbers {
    type V = Seq<i32>;

    closed spec fn view(&self) -> Seq<i32> {
        self.number@
    }
}

/// The contents of the buffer at startup.
pub open spec fn startup_numbers() -> Seq<i32> {
    Seq::new(STARTUP_LEN as nat, |i: int| STARTUP_VALUE)
}

/// Builds the buffer that is inserted into the main world at startup.
pub fn setup() -> (numbers: MyNumbers)
    ensures
        numbers@ == startup_numbers(),
        numbers@.len() == 32,
        forall|i: int| 0 <= i < 32 ==> numbers@[i] == 1,
{
    let mut number: Vec<i32> = Vec::new();
    let mut i: usize = 0;
    while i < STARTUP_LEN
        invariant
            i <= STARTUP_LEN,
            number@.len() == i,
            forall|j: int| 0 <= j < i ==> number@[j] == STARTUP_VALUE,
        decreases STARTUP_LEN - i,
    {
        number.push(STARTUP_VALUE);
        i = i + 1;
    }
    assert(number@ =~= startup_numbers());
    MyNumbers { number }
}

impl MyNumbers {
    /// A buffer that holds `number`.
    pub fn new(number: Vec<i32>) -> (numbers: MyNumbers)
        ensures
            numbers@ == number@,
    {
        MyNumbers { number }
    }

    /// The integers of the buffer, in order.
    pub fn number(&self) -> (number: &Vec<i32>)
        ensures
            number@ == self@,
    {
        &self.number
    }

    /// The snapshot of `source` that the render world gets for one frame.
    pub fn extract_resource(source: &MyNumbers) -> (snapshot: MyNumbers)
        ensures
            snapshot@ == source@,
    {
        MyNumbers { number: copy_of(&source.number) }
    }
}

/// A vector with the integers of `source`, in order.
pub(crate) fn copy_of(source: &Vec<i32>) -> (copy: Vec<i32>)
    ensures
        copy@ == source@,
{
    let mut copy: Vec<i32> = Vec::new();
    let mut i: usize = 0;
    while i < source.len()
        invariant
            i <= source@.len(),
            copy@ == source@.subrange(0, i as int),
        decreases source@.len() - i,
    {
        copy.push(source[i]);
        i = i + 1;
    }
    assert(copy@ =~= source@);
    copy
}

} // verus!
