//! The text field of the filter box: the `Input` of the `tui_input` crate,
//! with what this library assumes of it.

use vstd::prelude::*;

verus! {

#[verifier::external_type_specification]
#[verifier::external_body]
pub struct ExInput(tui_input::Input);

#[verifier::external_type_specification]
#[verifier::external_body]
pub struct ExInputRequest(tui_input::InputRequest);

/// The text that a text field holds.
pub uninterp spec fn input_text(input: tui_input::Input) -> Seq<char>;

/// The text that a text field holds once `Input::handle` has applied an edit
/// request to it.
pub uninterp spec fn text_after(input: tui_input::Input, edit: tui_input::InputRequest) -> Seq<char>;

/// The text of a field after a key press: what the edit leaves where the key
/// stands for one, else the text as it is.
pub open spec fn edited(input: tui_input::Input, edit: Option<tui_input::InputRequest>) -> Seq<
    char,
> {
    match edit {
        Some(request) => text_after(input, request),
        None => input_text(input),
    }
}

/// `Input::value` hands out the text that the field holds.
pub assume_specification<'a>[ tui_input::Input::value ](field: &'a tui_input::Input) -> (value:
    &'a str)
    ensures
        value@ == input_text(*field),
;

/// `Input::reset` empties the field.
pub assume_specification[ tui_input::Input::reset ](field: &mut tui_input::Input)
    ensures
        input_text(*final(field)) == Seq::<char>::empty(),
;

/// Makes an empty text field with `Input::default`.
#[verifier::external_body]
pub(crate) fn empty_input() -> (input: tui_input::Input)
    ensures
        input_text(input) == Seq::<char>::empty(),
{
    tui_input::Input::default()
}

/// Applies an edit request with `Input::handle` and reports whether the
/// field says that its text changed. The text afterwards is the one that the
/// request makes of the field as it was; it is named, and only this is
/// claimed of it: where the field does not say that its text changed, the
/// text is the same as before.
#[verifier::external_body]
pub(crate) fn apply_edit(input: &mut tui_input::Input, request: tui_input::InputRequest) -> (changed:
    bool)
    ensures
        input_text(*final(input)) == text_after(*old(input), request),
        !changed ==> input_text(*final(input)) == input_text(*old(input)),
{
    input.handle(request).map_or(false, |state| state.value)
}

} // verus!
