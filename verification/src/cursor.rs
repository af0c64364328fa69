use vstd::prelude::*;

use crate::error::AppError;

verus! {

/// The system cursors that the application replaces.
#[derive(Clone, Copy, Debug, PartialEq, Eq, Structural)]
pub enum CursorType {
    AppStarting,
    Normal,
    Cross,
    Hand,
    Help,
    IBeam,
    No,
    SizeAll,
    SizeNESW,
    SizeNS,
    SizeNWSE,
    SizeWE,
    Up,
    Wait,
}

/// A cursor image, known by its handle.
#[derive(Clone, Copy, Debug, PartialEq, Eq, Structural)]
pub struct Cursor {
    handle: isize,
}

/// A request to replace one system cursor by a copy of a cursor image.
#[derive(Clone, Copy, Debug, PartialEq, Eq, Structural)]
pub struct CursorChange {
    /// The identifier (`OCR_*`) of the system cursor to replace.
    pub id: u32,
    /// The handle of the image to copy.
    pub source: isize,
}

impl CursorType {
    /// The identifier (`OCR_*`) under which the system cursor of this type is
    /// replaced.
    pub open spec fn system_id(self) -> u32 {
        match self {
            CursorType::AppStarting => 32650,
            CursorType::Normal => 32512,
            CursorType::Cross => 32515,
            CursorType::Hand => 32649,
            CursorType::Help => 32651,
            CursorType::IBeam => 32513,
            CursorType::No => 32648,
            CursorType::SizeAll => 32646,
            CursorType::SizeNESW => 32643,
            CursorType::SizeNS => 32645,
            CursorType::SizeNWSE => 32642,
            CursorType::SizeWE => 32644,
            CursorType::Up => 32516,
            CursorType::Wait => 32514,
        }
    }

    /// The resource identifier (`IDC_*`) under which the system cursor of this
    /// type is loaded. It is the same number as `system_id`.
    pub open spec fn resource_id(self) -> u16 {
        self.system_id() as u16
    }

    /// All cursor types, in the order in which they are replaced.
    pub open spec fn all() -> Seq<CursorType> {
        seq![
            CursorType::AppStarting,
            CursorType::Normal,
            CursorType::Cross,
            CursorType::Hand,
            CursorType::Help,
            CursorType::IBeam,
            CursorType::No,
            CursorType::SizeAll,
            CursorType::SizeNESW,
            CursorType::SizeNS,
            CursorType::SizeNWSE,
            CursorType::SizeWE,
            CursorType::Up,
            CursorType::Wait,
        ]
    }
}

impl Cursor {
    /// The handle of this cursor image.
    pub closed spec fn id(self) -> isize {
        self.handle
    }

    /// Names the cursor image with the given handle.
    pub fn from_handle(handle: isize) -> (r: Self)
        ensures
            r.id() == handle,
    {
        Self { handle }
    }

    /// Returns the handle of this cursor image.
    pub fn handle(&self) -> (r: isize)
        ensures
            r == self.id(),
    {
        self.handle
    }

    /// Turns the result of loading a cursor file into a cursor. `loaded` is
    /// the handle of the image, or `None` if the file is missing or holds no
    /// cursor; `last_error` is the error code of the system for that case.
    pub fn load_from_file(loaded: Option<isize>, last_error: u32) -> (r: Result<Self, AppError>)
        ensures
            match (loaded, r) {
                (Some(handle), Ok(cursor)) => cursor.id() == handle,
                (None, Err(e)) => e.message() == "failed to load cursor from file"@ && e.code()
                    == Some(last_error as usize),
                _ => false,
            },
    {
        match loaded {
            Some(handle) => Ok(Self { handle }),
            None => Err(AppError::new("failed to load cursor from file", Some(last_error as usize))),
        }
    }
}

/// Converts a cursor type to the identifier (`OCR_*`) of its system cursor.
pub fn ocr(cursor_type: &CursorType) -> (r: u32)
    ensures
        r == cursor_type.system_id(),
{
    match cursor_type {
        CursorType::AppStarting => 32650,
        CursorType::Normal => 32512,
        CursorType::Cross => 32515,
        CursorType::Hand => 32649,
        CursorType::Help => 32651,
        CursorType::IBeam => 32513,
        CursorType::No => 32648,
        CursorType::SizeAll => 32646,
        CursorType::SizeNESW => 32643,
        CursorType::SizeNS => 32645,
        CursorType::SizeNWSE => 32642,
        CursorType::SizeWE => 32644,
        CursorType::Up => 32516,
        CursorType::Wait => 32514,
    }
}

/// Converts a cursor type to the resource identifier (`IDC_*`) of its system
/// cursor.
pub fn idc(cursor_type: &CursorType) -> (r: u16)
    ensures
        r == cursor_type.resource_id(),
        r == cursor_type.system_id(),
{
    ocr(cursor_type) as u16
}

/// The request that replaces the system cursor of the type `cursor_type` by a
/// copy of `cursor`.
pub fn set(cursor_type: &CursorType, cursor: &Cursor) -> (r: CursorChange)
    ensures
        r == (CursorChange { id: cursor_type.system_id(), source: cursor.id() }),
{
    CursorChange { id: ocr(cursor_type), source: cursor.handle }
}

/// The requests that replace every system cursor by a copy of `cursor`: one
/// for each cursor type, in the order of `CursorType::all`.
pub fn set_all(cursor: &Cursor) -> (r: Vec<CursorChange>)
    ensures
        r@ == CursorType::all().map_values(
            |cursor_type: CursorType|
                CursorChange { id: cursor_type.system_id(), source: cursor.id() },
        ),
{
    let mut changes: Vec<CursorChange> = Vec::new();
    changes.push(set(&CursorType::AppStarting, cursor));
    changes.push(set(&CursorType::Normal, cursor));
    changes.push(set(&CursorType::Cross, cursor));
    changes.push(set(&CursorType::Hand, cursor));
    changes.push(set(&CursorType::Help, cursor));
    changes.push(set(&CursorType::IBeam, cursor));
    changes.push(set(&CursorType::No, cursor));
    changes.push(set(&CursorType::SizeAll, cursor));
    changes.push(set(&CursorType::SizeNESW, cursor));
    changes.push(set(&CursorType::SizeNS, cursor));
    changes.push(set(&CursorType::SizeNWSE, cursor));
    changes.push(set(&CursorType::SizeWE, cursor));
    changes.push(set(&CursorType::Up, cursor));
    changes.push(set(&CursorType::Wait, cursor));
    proof {
        assert(changes@ =~= CursorType::all().map_values(
            |cursor_type: CursorType|
                CursorChange { id: cursor_type.system_id(), source: cursor.id() },
        ));
    }
    changes
}

/// No cursor type is left out when all system cursors are replaced.
pub proof fn lemma_all_cursor_types(cursor_type: CursorType)
    ensures
        CursorType::all().contains(cursor_type),
{
    let all = CursorType::all();
    match cursor_type {
        CursorType::AppStarting => assert(all[0] == cursor_type),
        CursorType::Normal => assert(all[1] == cursor_type),
        CursorType::Cross => assert(all[2] == cursor_type),
        CursorType::Hand => assert(all[3] == cursor_type),
        CursorType::Help => assert(all[4] == cursor_type),
        CursorType::IBeam => assert(all[5] == cursor_type),
        CursorType::No => assert(all[6] == cursor_type),
        CursorType::SizeAll => assert(all[7] == cursor_type),
        CursorType::SizeNESW => assert(all[8] == cursor_type),
        CursorType::SizeNS => assert(all[9] == cursor_type),
        CursorType::SizeNWSE => assert(all[10] == cursor_type),
        CursorType::SizeWE => assert(all[11] == cursor_type),
        CursorType::Up => assert(all[12] == cursor_type),
        CursorType::Wait => assert(all[13] == cursor_type),
    }
}

} // verus!
