//! Properties of the conversion rules and of the marshalling helpers.
use vstd::prelude::*;
use crate::conv::{c_input, c_output, fixed, input_rule, output_rule, targets, CError, OutputKind, Target};
use crate::expose::{c_expose_fn, has_receiver, out_slots, return_type, FnDeclV, ExposedFnV};
use crate::marshal::{no_nul, until_nul};
use crate::ty::{tuple_of, TyV};

verus! {

/// The conversion rules are functions of the type shape alone: equal shapes get equal
/// descriptors, under every target.
pub proof fn lemma_conversion_deterministic(target: Target, a: TyV, b: TyV)
    requires
        a == b,
    ensures
        input_rule(target, a) == input_rule(target, b),
        output_rule(target, a) == output_rule(target, b),
{
}

/// Text without null bytes survives encoding to a null-terminated buffer and decoding back.
pub proof fn lemma_text_round_trip(text: Seq<u8>)
    requires
        no_nul(text),
    ensures
        until_nul(text.push(0)) == text,
    decreases text.len(),
{
    if text.len() > 0 {
        let t = text.drop_first();
        assert(no_nul(t)) by {
            assert forall|i: int| 0 <= i < t.len() implies t[i] != 0 by {
                assert(t[i] == text[i + 1]);
            }
        }
        lemma_text_round_trip(t);
        assert(text.push(0).drop_first() =~= t.push(0));
        assert(text =~= seq![text[0]] + t);
    } else {
        assert(text.push(0) =~= seq![0u8]);
        assert(text =~= Seq::<u8>::empty());
    }
}

/// A dynamic array rebuilt from its elements and its count is the array itself.
pub proof fn lemma_array_round_trip<T>(elems: Seq<T>, count: nat)
    requires
        count == elems.len(),
    ensures
        elems.take(count as int) == elems,
{
    assert(elems.take(count as int) =~= elems);
}

/// An optional value rebuilt from its presence flag and its slot is the value itself.
pub proof fn lemma_option_round_trip<T>(value: Option<T>, slot: Option<T>, present: bool)
    requires
        present == (value is Some),
        value is Some ==> slot == value,
    ensures
        (if present { slot } else { None::<T> }) == value,
{
}

/// A dynamic array expands to exactly a pointer and a count, whatever its element type.
pub proof fn lemma_array_expands_to_pointer_and_count(elem: TyV)
    ensures
        c_output(TyV::Path("Vec"@, seq![elem])) is Ok ==> {
            let s = c_output(TyV::Path("Vec"@, seq![elem]))->Ok_0.slots;
            &&& s.len() == 2
            &&& s[0].0 is Ptr
            &&& s[1].0 == fixed("usize"@)
        },
        c_input(TyV::Path("Vec"@, seq![elem])) is Ok ==> {
            let s = c_input(TyV::Path("Vec"@, seq![elem]))->Ok_0.sources;
            &&& s.len() == 2
            &&& s[0].0 is Ptr
            &&& s[1].0 == fixed("usize"@)
        },
{
    reveal_strlit("Vec");
    reveal_strlit("String");
    reveal_strlit("Option");
}

/// An optional value expands to a presence flag followed by exactly the slots of the
/// wrapped type, and converts whenever the wrapped type does.
pub proof fn lemma_option_expands_to_flag_and_slots(inner: TyV)
    ensures
        (c_output(TyV::Path("Option"@, seq![inner])) is Ok) == (c_output(inner) is Ok),
        c_output(inner) is Ok ==> {
            let o = c_output(TyV::Path("Option"@, seq![inner]))->Ok_0;
            &&& o.kind == OutputKind::OptionOf
            &&& o.slots.len() == 1 + c_output(inner)->Ok_0.slots.len()
            &&& o.slots[0].0 == fixed("bool"@)
            &&& o.slots.drop_first() == c_output(inner)->Ok_0.slots
        },
{
    reveal_strlit("Vec");
    reveal_strlit("Option");
    let t = TyV::Path("Option"@, seq![inner]);
    assert("Option"@.len() != "Vec"@.len());
    assert(seq![inner].len() == 1 && seq![inner][0] == inner);
    if c_output(inner) is Ok {
        let o = c_output(t)->Ok_0;
        assert(o.slots.drop_first() =~= c_output(inner)->Ok_0.slots);
    }
}

/// An optional value is received the way it is handed over: a presence flag followed by
/// exactly the sources of the wrapped type.
pub proof fn lemma_option_input_is_flag_and_sources(inner: TyV)
    ensures
        (c_input(TyV::Path("Option"@, seq![inner])) is Ok) == (c_input(inner) is Ok),
        c_input(inner) is Ok ==> {
            let i = c_input(TyV::Path("Option"@, seq![inner]))->Ok_0;
            &&& i.sources.len() == 1 + c_input(inner)->Ok_0.sources.len()
            &&& i.sources[0] == (fixed("bool"@), "some"@)
            &&& i.sources.drop_first() == c_input(inner)->Ok_0.sources
        },
{
    reveal_strlit("Vec");
    reveal_strlit("Option");
    assert("Option"@.len() != "Vec"@.len());
    assert(seq![inner].len() == 1 && seq![inner][0] == inner);
    if c_input(inner) is Ok {
        let i = c_input(TyV::Path("Option"@, seq![inner]))->Ok_0;
        assert(i.sources.drop_first() =~= c_input(inner)->Ok_0.sources);
    }
}

/// A result is returned through its error channel, and its success payload travels
/// through out-parameters: the declared return type is the error's foreign type, and the
/// out-parameters are exactly the success value's slots.
pub proof fn lemma_result_error_channel(ok: TyV, err: TyV)
    ensures
        c_output(TyV::Path("Result"@, seq![ok, err])) is Ok <==> (c_output(ok) is Ok && c_output(err) is Ok),
        c_output(ok) is Ok && c_output(err) is Ok ==> {
            let o = c_output(TyV::Path("Result"@, seq![ok, err]))->Ok_0;
            &&& return_type(o) == tuple_of(targets(c_output(err)->Ok_0))
            &&& out_slots(o) == c_output(ok)->Ok_0.slots
        },
{
    reveal_strlit("Vec");
    reveal_strlit("Option");
    reveal_strlit("Result");
    assert("Result"@.len() != "Vec"@.len());
    assert("Result"@.len() == "Option"@.len() && "Result"@[0] != "Option"@[0]);
    let s = seq![ok, err];
    assert(s.len() == 2 && s[0] == ok && s[1] == err);
    if c_output(ok) is Ok && c_output(err) is Ok {
        let o = c_output(TyV::Path("Result"@, s))->Ok_0;
        assert(o.slots.drop_first() =~= c_output(ok)->Ok_0.slots);
    }
}

/// A function marked as a destructor whose first parameter is the receiver is refused.
pub proof fn lemma_destructor_rejects_receiver(d: FnDeclV)
    requires
        d.destructor,
        d.params.len() > 0,
        d.params[0] is None,
    ensures
        c_expose_fn(d) == Err::<ExposedFnV, CError>(CError::DestructorReceiverArgument),
{
    assert(has_receiver(d.params));
}

} // verus!
