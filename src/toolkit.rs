//! The GUI toolkit's edit actions, as the controller sees them: which variant an
//! action is, nothing inside it.

use vstd::prelude::*;

use iced::widget::text_editor::{Action, Edit, Motion};
use iced::Point;

verus! {

// The payloads of an action stay opaque: the controller never looks inside them.
#[verifier::external_type_specification]
#[verifier::external_body]
pub struct ExMotion(Motion);

#[verifier::external_type_specification]
#[verifier::external_body]
pub struct ExEdit(Edit);

#[verifier::external_type_specification]
#[verifier::external_body]
#[verifier::reject_recursive_types(T)]
pub struct ExPoint<T>(Point<T>);

/// iced's action on a text editor, with its variants visible.
#[verifier::external_type_specification]
pub struct ExAction(Action);

/// Relies on iced's `Action::is_edit`, which tells the actions that change the
/// text (the `Edit` variant) from moves, selections, clicks, drags and scrolls.
pub assume_specification[ Action::is_edit ](action: &Action) -> (r: bool)
    ensures
        r == (*action is Edit),
;

} // verus!
