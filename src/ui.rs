use vstd::prelude::*;

verus! {

/// Marker for the host plugin that lays out the editor panels (hierarchy,
/// inspector) and seeds the starting scene.
pub struct EditorUiPlugin;

/// The label of an object without a name.
pub open spec fn unnamed_label() -> Seq<char> {
    "Unnamed"@
}

/// The label under which the hierarchy panel lists an object.
pub fn unpack_name(name: Option<&str>) -> (r: &str)
    ensures
        name is Some ==> r@ == name->0@,
        name is None ==> r@ == unnamed_label(),
{
    match name {
        Some(n) => n,
        None => "Unnamed",
    }
}

} // verus!
