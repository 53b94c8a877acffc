//! The call stack: a LIFO sequence of frames, each holding a return address
//! and a growable array of local slots.
//!
//! The top of the stack (index 0) is the *active frame*, the only frame
//! reachable by slot operations. Locals start empty and zero-extend lazily
//! on first access to any index; slot access with no active frame is an
//! error, never a fallback.

use vstd::prelude::*;

use crate::errors::ErrorKind;
use crate::errors::VmError;

verus! {

/// Mathematical image of one call frame: a return address and the current
/// contents of its local slots.
pub ghost struct Frame {
    pub return_address: u16,
    pub locals: Seq<u16>,
}

/// `locals` padded with zeros on the right up to length `n` (unchanged when
/// already at least that long).
pub open spec fn pad_to(locals: Seq<u16>, n: nat) -> Seq<u16> {
    if n <= locals.len() {
        locals
    } else {
        locals + Seq::new((n - locals.len()) as nat, |i: int| 0u16)
    }
}

/// The lazy zero-extension policy: `locals` grown (with zeros) just far
/// enough that `index` is in range.
pub open spec fn zero_extend(locals: Seq<u16>, index: nat) -> Seq<u16> {
    pad_to(locals, index + 1)
}

/// The contents of the local slots after a write of `value` at `index`
/// under the zero-extension policy.
pub open spec fn write_slot(locals: Seq<u16>, index: nat, value: u16) -> Seq<u16> {
    zero_extend(locals, index).update(index as int, value)
}

/// The value a read of slot `index` yields under the zero-extension policy:
/// the stored value when the slot was ever in range, and zero otherwise.
pub open spec fn read_slot_value(locals: Seq<u16>, index: nat) -> u16 {
    zero_extend(locals, index)[index as int]
}

/// One frame of the call stack: the instruction position to return to and
/// the frame's local slots.
pub struct SubStack {
    pub return_address: u16,
    pub data: Vec<u16>,
}

impl View for SubStack {
    type V = Frame;

    open spec fn view(&self) -> Frame {
        Frame { return_address: self.return_address, locals: self.data@ }
    }
}

impl Default for SubStack {
    /// An empty frame returning to position 0.
    fn default() -> (r: SubStack)
        ensures
            r@ == (Frame { return_address: 0u16, locals: Seq::<u16>::empty() }),
    {
        SubStack { return_address: 0, data: Vec::new() }
    }
}

/// The call stack. Index 0 of `stack` is the top: the active frame.
pub struct MemoryState {
    pub stack: Vec<SubStack>,
}

impl View for MemoryState {
    type V = Seq<Frame>;

    open spec fn view(&self) -> Seq<Frame> {
        Seq::new(self.stack@.len(), |i: int| self.stack@[i]@)
    }
}

impl Default for MemoryState {
    /// A call stack with no frames.
    fn default() -> (r: MemoryState)
        ensures
            r@ == Seq::<Frame>::empty(),
    {
        let r = MemoryState { stack: Vec::new() };
        proof {
            assert(r@ =~= Seq::<Frame>::empty());
        }
        r
    }
}

impl MemoryState {
    /// Pushes a new empty frame, which becomes the active frame.
    pub fn create_new_sub_stack(&mut self, return_address: u16)
        ensures
            final(self)@ == seq![Frame { return_address, locals: Seq::<u16>::empty() }]
                + old(self)@,
    {
        let sub_stack = SubStack { return_address, data: Vec::new() };
        self.stack.insert(0, sub_stack);
        proof {
            assert(self@ =~= seq![Frame { return_address, locals: Seq::<u16>::empty() }]
                + old(self)@);
        }
    }

    /// The active frame, or `EmptyCallStack` if no frame exists.
    pub fn get_current_sub_stack(&self) -> (r: Result<&SubStack, VmError>)
        ensures
            self@.len() == 0 ==> (r matches Err(e) && e@ == ErrorKind::EmptyCallStack),
            self@.len() > 0 ==> (r matches Ok(f) && f@ == self@[0]),
    {
        if self.stack.len() == 0 {
            Err(VmError::EmptyCallStack)
        } else {
            Ok(&self.stack[0])
        }
    }

    /// Mutable access to the active frame, or `EmptyCallStack` if no frame
    /// exists.
    pub fn get_current_sub_stack_mut(&mut self) -> (r: Result<&mut SubStack, VmError>)
        ensures
            old(self)@.len() == 0 ==> (r matches Err(e) && e@ == ErrorKind::EmptyCallStack)
                && final(self)@ == old(self)@,
            old(self)@.len() > 0 ==> r is Ok && *r->Ok_0 == old(self).stack@[0]
                && final(self).stack@ == old(self).stack@.update(0, *final(r->Ok_0)),
    {
        if self.stack.len() == 0 {
            Err(VmError::EmptyCallStack)
        } else {
            Ok(&mut self.stack[0])
        }
    }

    /// Writes `value` to slot `index` of the active frame, zero-extending
    /// the frame's locals first so that `index` is in range. Fails with
    /// `EmptyCallStack` if no frame exists.
    pub fn write_data(&mut self, address: u16, data: u16) -> (r: Result<(), VmError>)
        ensures
            old(self)@.len() == 0 ==> (r matches Err(e) && e@ == ErrorKind::EmptyCallStack)
                && final(self)@ == old(self)@,
            old(self)@.len() > 0 ==> r is Ok && final(self)@ =~= old(self)@.update(
                0,
                Frame {
                    return_address: old(self)@[0].return_address,
                    locals: write_slot(old(self)@[0].locals, address as nat, data),
                },
            ),
    {
        match self.get_current_sub_stack_mut() {
            Err(e) => Err(e),
            Ok(current_sub_stack) => {
                let ghost frame0 = current_sub_stack@;
                proof {
                    assert(frame0 == old(self)@[0]);
                }
                while current_sub_stack.data.len() <= address as usize
                    invariant
                        current_sub_stack.return_address == frame0.return_address,
                        current_sub_stack.data@.len() >= frame0.locals.len(),
                        current_sub_stack.data@.len() <= frame0.locals.len()
                            || current_sub_stack.data@.len() <= address as int + 1,
                        current_sub_stack.data@ == pad_to(
                            frame0.locals,
                            current_sub_stack.data@.len() as nat,
                        ),
                    decreases address as int + 1 - current_sub_stack.data@.len(),
                {
                    current_sub_stack.data.push(0);
                    proof {
                        assert(current_sub_stack.data@ =~= pad_to(
                            frame0.locals,
                            current_sub_stack.data@.len() as nat,
                        ));
                    }
                }
                proof {
                    assert(current_sub_stack.data@ =~= zero_extend(
                        frame0.locals,
                        address as nat,
                    ));
                }
                let slot = &mut current_sub_stack.data[address as usize];
                *slot = data;
                proof {
                    assert(current_sub_stack.data@ == write_slot(
                        frame0.locals,
                        address as nat,
                        data,
                    ));
                }
                Ok(())
            },
        }
    }

    /// Reads slot `index` of the active frame, zero-extending the frame's
    /// locals first so that `index` is in range; an unwritten slot therefore
    /// reads as zero. The growth is an observable side effect. Fails with
    /// `EmptyCallStack` if no frame exists.
    pub fn read_slot(&mut self, address: u16) -> (r: Result<u16, VmError>)
        ensures
            old(self)@.len() == 0 ==> (r matches Err(e) && e@ == ErrorKind::EmptyCallStack)
                && final(self)@ == old(self)@,
            old(self)@.len() > 0 ==> r == Ok::<u16, VmError>(read_slot_value(
                old(self)@[0].locals,
                address as nat,
            )) && final(self)@ == old(self)@.update(
                0,
                Frame {
                    return_address: old(self)@[0].return_address,
                    locals: zero_extend(old(self)@[0].locals, address as nat),
                },
            ),
    {
        let missing = match self.get_current_sub_stack() {
            Err(e) => {
                return Err(e);
            },
            Ok(current_sub_stack) => current_sub_stack.data.len() <= address as usize,
        };
        if missing {
            match self.write_data(address, 0) {
                Err(e) => {
                    proof {
                        assert(false);
                    }
                    return Err(e);
                },
                Ok(()) => {},
            }
            proof {
                assert(self@[0].locals =~= zero_extend(old(self)@[0].locals, address as nat));
                assert(self@ =~= old(self)@.update(
                    0,
                    Frame {
                        return_address: old(self)@[0].return_address,
                        locals: zero_extend(old(self)@[0].locals, address as nat),
                    },
                ));
            }
        } else {
            proof {
                assert(self@[0].locals =~= zero_extend(old(self)@[0].locals, address as nat));
                assert(self@ =~= old(self)@.update(
                    0,
                    Frame {
                        return_address: old(self)@[0].return_address,
                        locals: zero_extend(old(self)@[0].locals, address as nat),
                    },
                ));
            }
        }
        match self.get_current_sub_stack() {
            Err(e) => {
                proof {
                    assert(false);
                }
                Err(e)
            },
            Ok(current_sub_stack) => Ok(current_sub_stack.data[address as usize]),
        }
    }

    /// Removes the active frame, or fails with `EmptyCallStack` if no frame
    /// exists. Used exclusively by returns.
    pub fn rewind_stack(&mut self) -> (r: Result<(), VmError>)
        ensures
            old(self)@.len() == 0 ==> (r matches Err(e) && e@ == ErrorKind::EmptyCallStack)
                && final(self)@ == old(self)@,
            old(self)@.len() > 0 ==> r is Ok && final(self)@ == old(self)@.subrange(
                1,
                old(self)@.len() as int,
            ),
    {
        if self.stack.len() == 0 {
            Err(VmError::EmptyCallStack)
        } else {
            self.stack.remove(0);
            proof {
                assert(self@ =~= old(self)@.subrange(1, old(self)@.len() as int));
            }
            Ok(())
        }
    }
}

} // verus!
