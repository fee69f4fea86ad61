//! The project-side data the inspector reads: an ordered sequence of GUI
//! structs, each with a display name and an ordered sequence of members.
//! These values are owned by the surrounding editor and are read-only to
//! the inspector.

use vstd::prelude::*;

verus! {

/// The ghost image of one struct member: its name and its type name, as
/// character sequences.
#[verifier::ext_equal]
pub ghost struct MemberView {
    pub name: Seq<char>,
    pub ty: Seq<char>,
}

/// The ghost image of one GUI struct: its display name and its members,
/// in declaration order.
#[verifier::ext_equal]
pub ghost struct StructView {
    pub full_name: Seq<char>,
    pub members: Seq<MemberView>,
}

/// One member (field) of a GUI struct: a name and a type name.
pub struct GuiStructMember {
    pub name: String,
    pub ty: String,
}

impl View for GuiStructMember {
    type V = MemberView;

    open spec fn view(&self) -> MemberView {
        MemberView { name: self.name@, ty: self.ty@ }
    }
}

impl GuiStructMember {
    pub fn new(name: String, ty: String) -> (r: Self)
        ensures
            r@.name == name@,
            r@.ty == ty@,
    {
        GuiStructMember { name, ty }
    }

    /// The member's name.
    pub fn name(&self) -> (r: &String)
        ensures
            r@ == self@.name,
    {
        &self.name
    }

    /// The member's type name.
    pub fn ty(&self) -> (r: &String)
        ensures
            r@ == self@.ty,
    {
        &self.ty
    }
}

/// One GUI struct parsed out of the project sources: a display name and an
/// ordered sequence of members.
pub struct GuiStruct {
    pub full_name: String,
    pub members: Vec<GuiStructMember>,
}

impl View for GuiStruct {
    type V = StructView;

    open spec fn view(&self) -> StructView {
        StructView {
            full_name: self.full_name@,
            members: self.members@.map_values(|m: GuiStructMember| m@),
        }
    }
}

impl GuiStruct {
    pub fn new(full_name: String, members: Vec<GuiStructMember>) -> (r: Self)
        ensures
            r@.full_name == full_name@,
            r@.members == members@.map_values(|m: GuiStructMember| m@),
    {
        GuiStruct { full_name, members }
    }

    /// The struct's display name.
    pub fn full_name(&self) -> (r: &String)
        ensures
            r@ == self@.full_name,
    {
        &self.full_name
    }

    /// The struct's members, in declaration order.
    pub fn members(&self) -> (r: &Vec<GuiStructMember>)
        ensures
            r@.map_values(|m: GuiStructMember| m@) == self@.members,
    {
        &self.members
    }
}

/// The project: an ordered sequence of GUI structs, rebuilt by the editor
/// whenever the sources are reparsed.
pub struct Project {
    pub gui_structs: Vec<GuiStruct>,
}

impl View for Project {
    type V = Seq<StructView>;

    open spec fn view(&self) -> Seq<StructView> {
        self.gui_structs@.map_values(|s: GuiStruct| s@)
    }
}

impl Project {
    pub fn new(gui_structs: Vec<GuiStruct>) -> (r: Self)
        ensures
            r@ == gui_structs@.map_values(|s: GuiStruct| s@),
    {
        Project { gui_structs }
    }

    /// The project's GUI structs, in project order.
    pub fn gui_structs(&self) -> (r: &Vec<GuiStruct>)
        ensures
            r@.map_values(|s: GuiStruct| s@) == self@,
    {
        &self.gui_structs
    }
}

} // verus!
