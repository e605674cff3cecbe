//! The banner.

use vstd::prelude::*;

verus! {

/// The banner at medium size: seven rows of block letters, each ended by a
/// line feed.
pub const MEDIUM: &'static str =
    "########  ######## ########   #######     ##    ## #### ##       ##       ######## ########  \n\
    ##     ## ##       ##     ## ##     ##    ##   ##   ##  ##       ##       ##       ##     ## \n\
    ##     ## ##       ##     ## ##     ##    ##  ##    ##  ##       ##       ##       ##     ## \n\
    ########  ######   ########  ##     ##    #####     ##  ##       ##       ######   ########  \n\
    ##   ##   ##       ##        ##     ##    ##  ##    ##  ##       ##       ##       ##   ##   \n\
    ##    ##  ##       ##        ##     ##    ##   ##   ##  ##       ##       ##       ##    ##  \n\
    ##     ## ######## ##         #######     ##    ## #### ######## ######## ######## ##     ##\n";

/// The banner, at one of its sizes.
#[derive(Debug, Clone, Copy, PartialEq, Eq, Structural)]
pub struct Logo {
    size: Size,
}

/// The sizes in which the banner comes.
#[derive(Debug, Clone, Copy, PartialEq, Eq, Structural)]
#[non_exhaustive]
pub enum Size {
    Medium,
}

impl Default for Size {
    fn default() -> (size: Size)
        ensures
            size == Size::Medium,
    {
        Size::Medium
    }
}

impl View for Logo {
    type V = Size;

    closed spec fn view(&self) -> Size {
        self.size
    }
}

impl Default for Logo {
    fn default() -> (logo: Logo)
        ensures
            logo@ == Size::Medium,
    {
        Logo { size: Size::Medium }
    }
}

impl Logo {
    /// The banner at `size`.
    pub fn new(size: Size) -> (logo: Logo)
        ensures
            logo@ == size,
    {
        Self { size }
    }

    /// The size that the banner was made with.
    pub fn size(&self) -> (size: Size)
        ensures
            size == self@,
    {
        self.size
    }

    /// What is drawn for this banner.
    pub fn as_str(&self) -> (text: &'static str)
        ensures
            text@ == self@.text(),
    {
        self.size.as_str()
    }
}

impl Size {
    /// The banner's characters at this size.
    pub open spec fn text(self) -> Seq<char> {
        match self {
            Size::Medium => MEDIUM@,
        }
    }

    /// The banner's text at this size.
    pub fn as_str(self) -> (text: &'static str)
        ensures
            text@ == self.text(),
    {
        match self {
            Self::Medium => Self::medium(),
        }
    }

    fn medium() -> (text: &'static str)
        ensures
            text@ == MEDIUM@,
    {
        MEDIUM
    }
}

} // verus!
