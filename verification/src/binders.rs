//! The plain types that cross the boundary by value whatever the headers
//! say, and the wire values of handles and strings.

use vstd::prelude::*;

verus! {

/// An entity of the engine by its number.
#[derive(Default, Clone, Copy, Debug, PartialEq, Eq, Structural)]
pub struct Entity {
    pub id: u64,
}

/// A colour with its opacity, one byte for each part.
#[derive(Default, Clone, Copy, Debug, PartialEq, Eq, Structural)]
pub struct Color {
    pub r: u8,
    pub g: u8,
    pub b: u8,
    pub a: u8,
}

impl Color {
    /// Pure red, opaque.
    pub fn red() -> (c: Color)
        ensures
            c == (Color { r: 255, g: 0, b: 0, a: 255 }),
    {
        Color { r: 255, g: 0, b: 0, a: 255 }
    }

    /// Pure green, opaque.
    pub fn green() -> (c: Color)
        ensures
            c == (Color { r: 0, g: 255, b: 0, a: 255 }),
    {
        Color { r: 0, g: 255, b: 0, a: 255 }
    }

    /// Pure blue, opaque.
    pub fn blue() -> (c: Color)
        ensures
            c == (Color { r: 0, g: 0, b: 255, a: 255 }),
    {
        Color { r: 0, g: 0, b: 255, a: 255 }
    }
}

/// A unique identifier in four words.
#[derive(Default, Clone, Copy, Debug, PartialEq, Eq, Structural)]
pub struct Uuid {
    pub a: u32,
    pub b: u32,
    pub c: u32,
    pub d: u32,
}

/// The shapes that a collision query knows.
#[derive(Clone, Copy, Debug, PartialEq, Eq, Structural)]
pub enum CollisionShapeType {
    Box,
    Capsule,
    Sphere,
}

/// A point with whole coordinates.
#[derive(Default, Clone, Copy, Debug, PartialEq, Eq, Structural)]
pub struct IntPoint {
    pub x: i32,
    pub y: i32,
}

/// An interned name of the engine.
#[derive(Default, Clone, Copy, Debug, PartialEq, Eq, Structural)]
pub struct UName {
    pub entry: u32,
    pub number: u32,
}

/// An untyped pointer as it crosses the boundary: an address, of which
/// nothing is known but whether it is null.
#[derive(Default, Clone, Copy, Debug, PartialEq, Eq, Structural)]
pub struct Handle {
    pub addr: usize,
}

impl Handle {
    /// Whether the handle is the null handle.
    pub open spec fn spec_is_null(self) -> bool {
        self.addr == 0
    }

    /// The null handle.
    pub fn null() -> (h: Handle)
        ensures
            h.spec_is_null(),
    {
        Handle { addr: 0 }
    }

    /// Whether the handle is the null handle.
    pub fn is_null(self) -> (r: bool)
        ensures
            r == self.spec_is_null(),
    {
        self.addr == 0
    }
}

/// A companion type that stands for a native object behind a handle.
pub trait IPtr: Sized {
    /// The handle of the object.
    fn inner(&self) -> Handle;

    /// The object behind a handle; none behind the null handle.
    fn from_ptr(ptr: Handle) -> Option<Self>;
}

/// The objects that an overlap query found.
#[derive(Clone, Copy, Debug, PartialEq, Eq, Structural)]
pub struct OverlapResult {
    pub actor: Handle,
    pub primtive: Handle,
}

/// A string on the wire that the native side only reads: where its bytes
/// are and how many.
#[derive(Clone, Copy, Debug, PartialEq, Eq, Structural)]
pub struct NativeString {
    pub utf_str: Handle,
    pub size: u32,
}

/// A string on the wire that the native side may rewrite: where its bytes
/// are, how many, and where the companion buffer is that owns them.
#[derive(Clone, Copy, Debug, PartialEq, Eq, Structural)]
pub struct RefString {
    pub utf_str: Handle,
    pub str_ref: Handle,
    pub size: u32,
}

/// The wire value of a companion buffer that the native side only reads.
pub fn native_string(at: Handle, buffer: &Vec<u8>) -> (r: Option<NativeString>)
    ensures
        match r {
            Some(s) => buffer.len() <= u32::MAX && s == (NativeString {
                utf_str: at,
                size: buffer.len() as u32,
            }),
            None => buffer.len() > u32::MAX,
        },
{
    if buffer.len() > u32::MAX as usize {
        None
    } else {
        Some(NativeString { utf_str: at, size: buffer.len() as u32 })
    }
}

/// What the companion buffer holds after the native side rewrote a string:
/// the bytes that the native side sent, whatever their number, or what it
/// held where the native side sent none.
pub open spec fn buffer_after(held: Seq<u8>, sent: Option<Seq<u8>>) -> Seq<u8> {
    match sent {
        Some(bytes) => bytes,
        None => held,
    }
}

/// The companion side of a rewrite: puts the bytes that the native side sent
/// into the buffer behind a rewritable string, which grows where they are
/// more than it held.
pub fn reset_rust_string(buffer: &mut Vec<u8>, sent: Option<&Vec<u8>>)
    ensures
        final(buffer)@ == buffer_after(
            old(buffer)@,
            match sent {
                Some(bytes) => Some(bytes@),
                None => None,
            },
        ),
{
    match sent {
        Some(bytes) => {
            buffer.clear();
            let mut i: usize = 0;
            while i < bytes.len()
                invariant
                    i <= bytes.len(),
                    buffer@ == bytes@.take(i as int),
                decreases bytes.len() - i,
            {
                buffer.push(bytes[i]);
                assert(buffer@ =~= bytes@.take(i + 1));
                i += 1;
            }
            assert(bytes@.take(bytes.len() as int) =~= bytes@);
        },
        None => {},
    }
}

} // verus!
