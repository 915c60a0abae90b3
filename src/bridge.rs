use vstd::prelude::*;
use crate::error::EngineError;

verus! {

/// What `some_prop` reads on a freshly constructed vector.
pub const SOME_PROP_INITIAL: i64 = 12;

/// The native payload behind a script-visible `Vector`.
#[derive(PartialEq, Eq, Structural, Clone, Copy, Debug)]
pub struct NativeVector {
    pub x: i64,
    pub y: i64,
    pub z: i64,
    pub some_prop: i64,
}

impl NativeVector {
    /// The origin, with `some_prop` at its initial value.
    pub fn new() -> (r: Self)
        ensures
            r == (NativeVector { x: 0, y: 0, z: 0, some_prop: SOME_PROP_INITIAL }),
    {
        NativeVector { x: 0, y: 0, z: 0, some_prop: SOME_PROP_INITIAL }
    }
}

/// Who destroys a payload: native code (the script side holds a view) or
/// the script heap (the payload was handed over with the wrapper).
#[derive(PartialEq, Eq, Structural, Clone, Copy, Debug)]
pub enum Ownership {
    Borrowed,
    Owned,
}

/// A native value that scripts can reach through a handle.
#[derive(PartialEq, Eq, Structural, Clone, Copy, Debug)]
pub enum Payload {
    Vector(NativeVector),
    /// A view of the scene that native code owns.
    Scene,
}

/// One arena slot: a payload, its ownership tag and whether the handle to
/// it is still valid.
#[derive(PartialEq, Eq, Structural, Clone, Copy, Debug)]
pub struct Slot {
    pub payload: Payload,
    pub ownership: Ownership,
    pub live: bool,
}

/// A checked index into the arena; scripts never see an address.
#[derive(PartialEq, Eq, Structural, Clone, Copy, Debug)]
pub struct Handle {
    pub index: usize,
}

/// The native methods and accessors on the `Vector` prototype.
#[derive(PartialEq, Eq, Structural, Clone, Copy, Debug)]
pub enum VectorMethod {
    /// `log()`: the host prints a line; nothing is returned.
    Log,
    /// The getter of `some_prop`.
    GetSomeProp,
    /// The setter of `some_prop`.
    SetSomeProp(i64),
}

/// What a native method hands back to script code.
#[derive(PartialEq, Eq, Structural, Clone, Copy, Debug)]
pub enum CallValue {
    Null,
    Number(i64),
}

/// The arena of native payloads exposed to scripts.
pub struct Bridge {
    pub slots: Vec<Slot>,
}

impl View for Bridge {
    type V = Seq<Slot>;

    open spec fn view(&self) -> Seq<Slot> {
        self.slots@
    }
}

/// The vector behind `h`, if `h` is a live handle to a vector.
pub open spec fn vector_at(slots: Seq<Slot>, h: Handle) -> Option<NativeVector> {
    if h.index < slots.len() && slots[h.index as int].live {
        match slots[h.index as int].payload {
            Payload::Vector(v) => Some(v),
            Payload::Scene => None,
        }
    } else {
        None
    }
}

/// The arena and the result after calling `m` with `this` bound to `h`;
/// nothing when `h` does not lead to a live vector.
pub open spec fn call_result(slots: Seq<Slot>, h: Handle, m: VectorMethod) -> Option<
    (Seq<Slot>, CallValue),
> {
    match vector_at(slots, h) {
        None => None,
        Some(v) => match m {
            VectorMethod::Log => Some((slots, CallValue::Null)),
            VectorMethod::GetSomeProp => Some((slots, CallValue::Number(v.some_prop))),
            VectorMethod::SetSomeProp(x) => Some(
                (
                    slots.update(
                        h.index as int,
                        Slot {
                            payload: Payload::Vector(NativeVector { some_prop: x, ..v }),
                            ..slots[h.index as int]
                        },
                    ),
                    CallValue::Null,
                ),
            ),
        },
    }
}

/// Writing `some_prop` through the setter and reading it back through the
/// getter observes the written value: the accessor goes to the native
/// payload, not to a copy kept on the script side.
pub proof fn lemma_accessor_read_after_write(slots: Seq<Slot>, h: Handle, x: i64)
    requires
        vector_at(slots, h) is Some,
    ensures
        call_result(slots, h, VectorMethod::SetSomeProp(x)) matches Some((s1, v1)) && v1
            == CallValue::Null && call_result(s1, h, VectorMethod::GetSomeProp) == Some(
            (s1, CallValue::Number(x)),
        ),
{
}

/// A call binds `this` to one instance's own payload: calling any method
/// through `h` leaves every other handle's payload as it was. This holds for
/// separately constructed instances, and for an instance of a script class
/// derived from `Vector`, whose inherited native methods reach its own
/// payload rather than that of any other object.
pub proof fn lemma_calls_stay_on_this(slots: Seq<Slot>, h: Handle, other: Handle, m: VectorMethod)
    requires
        vector_at(slots, h) is Some,
        other.index != h.index,
    ensures
        call_result(slots, h, m) matches Some((s1, v1)) && vector_at(s1, other) == vector_at(
            slots,
            other,
        ) && s1.len() == slots.len(),
{
}

impl Bridge {
    pub fn new() -> (r: Self)
        ensures
            r@ == Seq::<Slot>::empty(),
    {
        Bridge { slots: Vec::new() }
    }

    /// Places a payload in a fresh slot under the given ownership.
    pub fn expose(&mut self, payload: Payload, ownership: Ownership) -> (r: Handle)
        ensures
            r.index == old(self)@.len(),
            final(self)@ == old(self)@.push(Slot { payload, ownership, live: true }),
    {
        let index = self.slots.len();
        self.slots.push(Slot { payload, ownership, live: true });
        Handle { index }
    }

    /// The `Vector` constructor: a new vector whose payload belongs to the
    /// script wrapper. Each call yields a handle distinct from all earlier ones.
    pub fn construct_vector(&mut self) -> (r: Handle)
        ensures
            r.index == old(self)@.len(),
            final(self)@ == old(self)@.push(
                Slot {
                    payload: Payload::Vector(
                        NativeVector { x: 0, y: 0, z: 0, some_prop: SOME_PROP_INITIAL },
                    ),
                    ownership: Ownership::Owned,
                    live: true,
                },
            ),
            vector_at(final(self)@, r) == Some(
                NativeVector { x: 0, y: 0, z: 0, some_prop: SOME_PROP_INITIAL },
            ),
            forall|h: Handle| h.index < old(self)@.len() ==> vector_at(final(self)@, h) == vector_at(
                old(self)@,
                h,
            ),
    {
        let v = NativeVector::new();
        let r = self.expose(Payload::Vector(v), Ownership::Owned);
        assert forall|h: Handle| h.index < old(self)@.len() implies vector_at(self@, h) == vector_at(
            old(self)@,
            h,
        ) by {
            assert(self@[h.index as int] == old(self)@[h.index as int]);
        }
        r
    }

    /// The vector behind `this`; anything else is a type mismatch.
    pub fn vector(&self, this: Handle) -> (r: Result<NativeVector, EngineError>)
        ensures
            vector_at(self@, this) matches Some(v) ==> r == Ok::<NativeVector, EngineError>(v),
            vector_at(self@, this) is None ==> r matches Err(EngineError::NativeTypeMismatch),
    {
        if this.index >= self.slots.len() {
            return Err(EngineError::NativeTypeMismatch);
        }
        let slot = self.slots[this.index];
        if !slot.live {
            return Err(EngineError::NativeTypeMismatch);
        }
        match slot.payload {
            Payload::Vector(v) => Ok(v),
            Payload::Scene => Err(EngineError::NativeTypeMismatch),
        }
    }

    /// Calls a `Vector` method with `this` bound to `this`, after checking
    /// that `this` carries a live vector.
    pub fn call(&mut self, this: Handle, m: VectorMethod) -> (r: Result<CallValue, EngineError>)
        ensures
            call_result(old(self)@, this, m) matches Some((s, v)) ==> (r == Ok::<
                CallValue,
                EngineError,
            >(v) && final(self)@ == s),
            call_result(old(self)@, this, m) is None ==> (r matches Err(
                EngineError::NativeTypeMismatch,
            ) && final(self)@ == old(self)@),
    {
        let v = self.vector(this)?;
        match m {
            VectorMethod::Log => Ok(CallValue::Null),
            VectorMethod::GetSomeProp => Ok(CallValue::Number(v.some_prop)),
            VectorMethod::SetSomeProp(x) => {
                let slot = self.slots[this.index];
                self.slots.set(
                    this.index,
                    Slot { payload: Payload::Vector(NativeVector { some_prop: x, ..v }), ..slot },
                );
                Ok(CallValue::Null)
            },
        }
    }

    /// The script heap let go of the wrapper behind `h`: the handle stops
    /// being valid. Returns the ownership tag, which tells native code
    /// whether the payload went with the wrapper.
    pub fn release(&mut self, h: Handle) -> (r: Result<Ownership, EngineError>)
        ensures
            h.index < old(self)@.len() && old(self)@[h.index as int].live ==> r == Ok::<
                Ownership,
                EngineError,
            >(old(self)@[h.index as int].ownership) && final(self)@ == old(self)@.update(
                h.index as int,
                Slot { live: false, ..old(self)@[h.index as int] },
            ),
            !(h.index < old(self)@.len() && old(self)@[h.index as int].live) ==> (r matches Err(
                EngineError::NativeTypeMismatch,
            ) && final(self)@ == old(self)@),
    {
        if h.index >= self.slots.len() {
            return Err(EngineError::NativeTypeMismatch);
        }
        let slot = self.slots[h.index];
        if !slot.live {
            return Err(EngineError::NativeTypeMismatch);
        }
        self.slots.set(h.index, Slot { live: false, ..slot });
        Ok(slot.ownership)
    }
}

} // verus!
