//! What the extractor reads of one table row, as plain text.

use vstd::prelude::*;

verus! {

/// The heading anchor of a row.
#[derive(Debug)]
pub struct Anchor {
    /// The value of its link-type attribute.
    pub linktype: Option<String>,
    /// The value of its `href` attribute.
    pub href: Option<String>,
    /// The text of the first bold element below it.
    pub title: Option<String>,
}

/// One row of the announcements table.
#[derive(Debug)]
pub struct Row {
    /// The heading anchor: the first element with a link-type attribute
    /// that is a child of a cell with an identifier.
    pub anchor: Option<Anchor>,
    /// The text of the first bold element that is a child of a cell with an
    /// identifier.
    pub cell_title: Option<String>,
    /// The identifier of the first cell that has one.
    pub id: Option<String>,
    /// The inner markup of each division that is a child of a cell with an
    /// identifier, in document order.
    pub blocks: Vec<String>,
    /// The text of the first cell that follows a cell with an identifier.
    pub date: Option<String>,
}

/// A heading anchor as the characters it holds.
pub struct AnchorView {
    pub linktype: Option<Seq<char>>,
    pub href: Option<Seq<char>>,
    pub title: Option<Seq<char>>,
}

/// A row as the characters it holds.
pub struct RowView {
    pub anchor: Option<AnchorView>,
    pub cell_title: Option<Seq<char>>,
    pub id: Option<Seq<char>>,
    pub blocks: Seq<Seq<char>>,
    pub date: Option<Seq<char>>,
}

impl View for Anchor {
    type V = AnchorView;

    open spec fn view(&self) -> AnchorView {
        AnchorView {
            linktype: self.linktype.deep_view(),
            href: self.href.deep_view(),
            title: self.title.deep_view(),
        }
    }
}

impl DeepView for Anchor {
    type V = AnchorView;

    open spec fn deep_view(&self) -> AnchorView {
        self@
    }
}

impl View for Row {
    type V = RowView;

    open spec fn view(&self) -> RowView {
        RowView {
            anchor: self.anchor.deep_view(),
            cell_title: self.cell_title.deep_view(),
            id: self.id.deep_view(),
            blocks: self.blocks.deep_view(),
            date: self.date.deep_view(),
        }
    }
}

impl DeepView for Row {
    type V = RowView;

    open spec fn deep_view(&self) -> RowView {
        self@
    }
}

} // verus!
