//! What the dashboard shows: the filter control, the notice, the list.

use vstd::prelude::*;
use crate::card::{RoomCard, RoomCardView};
use crate::room::GameType;
use crate::text::joined;

verus! {

/// What stands before the chosen game type in the title of the filter.
pub const TITLE_PREFIX: &'static str = "对战类型: ";

/// The notice shown after a kick-out was sent.
pub const ALERT_TEXT: &'static str = "发送成功";

/// Label of the button that fetches the rooms again.
pub const REFRESH_LABEL: &'static str = "刷新";

/// The filter control: a drop-down menu of game types, whose title names the
/// game type chosen last.
#[derive(Debug, PartialEq, Eq)]
pub struct Dropdowns {
    pub title: String,
    /// The entries of the menu.
    pub lis: Vec<String>,
}

/// What a `Dropdowns` holds.
pub struct DropdownsView {
    pub title: Seq<char>,
    pub lis: Seq<Seq<char>>,
}

impl DropdownsView {
    /// The title that names `game_type` as the chosen one.
    pub open spec fn title_of(game_type: Seq<char>) -> Seq<char> {
        TITLE_PREFIX@ + game_type
    }

    /// The entries of the menu: the names of the three game types.
    pub open spec fn entries() -> Seq<Seq<char>> {
        seq![
            GameType::War3.spec_name(),
            GameType::RPG.spec_name(),
            GameType::CH3C.spec_name(),
        ]
    }

    /// The filter control as it stands when `game_type` is the chosen one.
    pub open spec fn showing(game_type: Seq<char>) -> DropdownsView {
        DropdownsView { title: DropdownsView::title_of(game_type), lis: DropdownsView::entries() }
    }
}

impl View for Dropdowns {
    type V = DropdownsView;

    open spec fn view(&self) -> DropdownsView {
        DropdownsView { title: self.title@, lis: self.lis.deep_view() }
    }
}

impl DeepView for Dropdowns {
    type V = DropdownsView;

    open spec fn deep_view(&self) -> DropdownsView {
        self@
    }
}

impl Clone for Dropdowns {
    fn clone(&self) -> (copy: Self)
        ensures
            copy@ == self@,
    {
        let lis = self.lis.clone();
        assert(lis.deep_view() =~= self.lis.deep_view());
        Dropdowns { title: self.title.clone(), lis }
    }
}

impl Dropdowns {
    /// The filter control as it stands when `game_type` is the chosen one.
    pub fn showing(game_type: &str) -> (dropdowns: Dropdowns)
        ensures
            dropdowns@ == DropdownsView::showing(game_type@),
    {
        let mut lis: Vec<String> = Vec::new();
        lis.push(GameType::War3.name().to_owned());
        lis.push(GameType::RPG.name().to_owned());
        lis.push(GameType::CH3C.name().to_owned());
        assert(lis.deep_view() =~= DropdownsView::entries());
        Dropdowns { title: joined(TITLE_PREFIX, game_type), lis }
    }
}

/// One rendering of the dashboard.
#[derive(Debug, PartialEq, Eq)]
pub enum Page {
    /// Nothing but the filter control: there are no rooms.
    FilterOnly { dropdowns: Dropdowns },
    /// The notice if there is one, the filter control, the refresh button and
    /// the cards of the rooms that are listed.
    Listing { alert: Option<String>, dropdowns: Dropdowns, refresh: String, lis: Vec<RoomCard> },
}

/// What a `Page` holds.
pub enum PageView {
    FilterOnly { dropdowns: DropdownsView },
    Listing {
        alert: Option<Seq<char>>,
        dropdowns: DropdownsView,
        refresh: Seq<char>,
        lis: Seq<RoomCardView>,
    },
}

impl View for Page {
    type V = PageView;

    open spec fn view(&self) -> PageView {
        match self {
            Page::FilterOnly { dropdowns } => PageView::FilterOnly { dropdowns: dropdowns@ },
            Page::Listing { alert, dropdowns, refresh, lis } => PageView::Listing {
                alert: alert.deep_view(),
                dropdowns: dropdowns@,
                refresh: refresh@,
                lis: lis.deep_view(),
            },
        }
    }
}

impl DeepView for Page {
    type V = PageView;

    open spec fn deep_view(&self) -> PageView {
        self@
    }
}

} // verus!
