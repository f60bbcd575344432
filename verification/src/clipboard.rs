//! Clipboard access and drag-and-drop destination bookkeeping.
//!
//! Only the commands are modelled here: what data a clipboard holds, and how
//! a transfer is negotiated, belongs to the shell around the runtime.

use vstd::prelude::*;
use crate::ids::Id;

verus! {

/// The kind of clipboard.
#[derive(Debug, Clone, Copy, PartialEq, Eq, Structural)]
pub enum Kind {
    /// The standard clipboard.
    Standard,
    /// The primary clipboard, present on X11 and Wayland.
    Primary,
}

/// A buffer for short-term storage and transfer within and between
/// applications, implemented by the shell.
pub trait Clipboard {
    /// Reads the current content of the clipboard as text.
    fn read(&self, kind: Kind) -> Option<String>;

    /// Writes the given text contents to the clipboard.
    fn write(&mut self, kind: Kind, contents: String);
}

/// A null clipboard: reads nothing, keeps nothing.
#[derive(Debug, Clone, Copy)]
pub struct Null;

impl Clipboard for Null {
    fn read(&self, _kind: Kind) -> (r: Option<String>) {
        None
    }

    fn write(&mut self, _kind: Kind, _contents: String) {
    }
}

/// A widget id, for naming the widget a drag started from.
#[derive(Debug, Clone, Copy, PartialEq, Eq, Structural, Hash)]
pub struct WidgetId(pub u64);

/// The source of a drag-and-drop operation.
#[derive(Debug, Clone, Copy, PartialEq, Eq, Structural)]
pub enum DndSource {
    /// A widget started the drag.
    Widget(WidgetId),
    /// A surface started the drag.
    Surface(Id),
}

/// One rectangle a drop can land in, in logical coordinates, together with
/// the id its owner chose for it.
#[derive(Debug, Clone, Copy, PartialEq, Eq)]
pub struct DndDestinationRectangle {
    /// The id of the destination.
    pub id: u128,
    /// The rectangle, as logical x, y, width and height.
    pub rectangle: crate::geometry::Rectangle,
}

/// A list of drag-and-drop destination rectangles.
#[derive(Debug)]
pub struct DndDestinationRectangles {
    pub rectangles: Vec<DndDestinationRectangle>,
}

impl DndDestinationRectangles {
    /// The rectangles held, in the order they were pushed.
    pub open spec fn view(&self) -> Seq<DndDestinationRectangle> {
        self.rectangles@
    }

    /// Creates an empty list.
    pub fn new() -> (r: DndDestinationRectangles)
        ensures
            r@ == Seq::<DndDestinationRectangle>::empty(),
    {
        DndDestinationRectangles { rectangles: Vec::new() }
    }

    /// Creates an empty list with room for `capacity` rectangles.
    pub fn with_capacity(capacity: usize) -> (r: DndDestinationRectangles)
        ensures
            r@ == Seq::<DndDestinationRectangle>::empty(),
    {
        DndDestinationRectangles { rectangles: Vec::with_capacity(capacity) }
    }

    /// Pushes a rectangle to the end of the list.
    pub fn push(&mut self, rectangle: DndDestinationRectangle)
        ensures
            final(self)@ == old(self)@.push(rectangle),
    {
        self.rectangles.push(rectangle);
    }

    /// Appends `other` to the list, draining it.
    pub fn append(&mut self, other: &mut Vec<DndDestinationRectangle>)
        ensures
            final(self)@ == old(self)@ + old(other)@,
            final(other)@ == Seq::<DndDestinationRectangle>::empty(),
    {
        self.rectangles.append(other);
    }

    /// Returns the rectangles, last pushed first, consuming the list.
    pub fn into_rectangles(self) -> (r: Vec<DndDestinationRectangle>)
        ensures
            r@ == self@.reverse(),
    {
        let mut rectangles = self.rectangles;
        let ghost orig = rectangles@;
        let mut reversed: Vec<DndDestinationRectangle> = Vec::new();
        while rectangles.len() > 0
            invariant
                orig == rectangles@ + reversed@.reverse(),
            decreases rectangles@.len(),
        {
            match rectangles.pop() {
                Some(rect) => {
                    reversed.push(rect);
                    proof {
                        assert(orig =~= rectangles@ + reversed@.reverse());
                    }
                }
                None => {
                    proof {
                        assert(false);
                    }
                }
            }
        }
        proof {
            assert(orig =~= reversed@.reverse());
            assert(reversed@ =~= orig.reverse());
        }
        reversed
    }
}

/// A clipboard command for the shell to perform.
#[derive(Debug, Clone, PartialEq, Eq)]
pub enum Action {
    /// Read the clipboard; the shell answers with the contents.
    Read {
        /// The clipboard to read.
        target: Kind,
    },
    /// Write the given contents to the clipboard.
    Write {
        /// The clipboard to write.
        target: Kind,
        /// The contents to be written.
        contents: String,
    },
}

/// The command that reads the current contents of the clipboard.
pub fn read() -> (a: Action)
    ensures
        a == (Action::Read { target: Kind::Standard }),
{
    Action::Read { target: Kind::Standard }
}

/// The command that reads the current contents of the primary clipboard.
pub fn read_primary() -> (a: Action)
    ensures
        a == (Action::Read { target: Kind::Primary }),
{
    Action::Read { target: Kind::Primary }
}

/// The command that writes `contents` to the clipboard.
pub fn write(contents: String) -> (a: Action)
    ensures
        a == (Action::Write { target: Kind::Standard, contents }),
{
    Action::Write { target: Kind::Standard, contents }
}

/// The command that writes `contents` to the primary clipboard.
pub fn write_primary(contents: String) -> (a: Action)
    ensures
        a == (Action::Write { target: Kind::Primary, contents }),
{
    Action::Write { target: Kind::Primary, contents }
}

} // verus!
