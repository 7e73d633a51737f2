//! The pages of the window, in the order of the sidebar.

use vstd::prelude::*;

verus! {

#[derive(Clone, Copy, Debug, PartialEq, Eq, Structural)]
pub enum Page {
    Mods,
    Browse,
    Configs,
    Friends,
    Servers,
    Share,
    Doctor,
}

/// The title of a page.
pub open spec fn page_title(page: Page) -> Seq<char> {
    match page {
        Page::Mods => "Mods"@,
        Page::Browse => "Browse"@,
        Page::Configs => "Configs"@,
        Page::Friends => "Friends"@,
        Page::Servers => "Servers"@,
        Page::Share => "Share"@,
        Page::Doctor => "Doctor"@,
    }
}

/// The icon file of a page.
pub open spec fn page_icon(page: Page) -> Seq<char> {
    match page {
        Page::Mods => "nav_mods.svg"@,
        Page::Browse => "nav_browse.svg"@,
        Page::Configs => "nav_configs.svg"@,
        Page::Friends => "nav_friends.svg"@,
        Page::Servers => "nav_servers.svg"@,
        Page::Share => "nav_share.svg"@,
        Page::Doctor => "nav_doctor.svg"@,
    }
}

impl Page {
    /// Every page, in the order of the sidebar.
    pub fn all() -> (pages: [Page; 7])
        ensures
            pages@ == seq![
                Page::Mods,
                Page::Browse,
                Page::Configs,
                Page::Friends,
                Page::Servers,
                Page::Share,
                Page::Doctor,
            ],
    {
        [Page::Mods, Page::Browse, Page::Configs, Page::Friends, Page::Servers, Page::Share, Page::Doctor]
    }

    /// Lucide line icons, ISC licensed. The accent color is baked into the
    /// files.
    pub fn icon(self) -> (icon: &'static str)
        ensures
            icon@ == page_icon(self),
    {
        match self {
            Page::Mods => "nav_mods.svg",
            Page::Browse => "nav_browse.svg",
            Page::Configs => "nav_configs.svg",
            Page::Friends => "nav_friends.svg",
            Page::Servers => "nav_servers.svg",
            Page::Share => "nav_share.svg",
            Page::Doctor => "nav_doctor.svg",
        }
    }

    pub fn title(self) -> (title: &'static str)
        ensures
            title@ == page_title(self),
    {
        match self {
            Page::Mods => "Mods",
            Page::Browse => "Browse",
            Page::Configs => "Configs",
            Page::Friends => "Friends",
            Page::Servers => "Servers",
            Page::Share => "Share",
            Page::Doctor => "Doctor",
        }
    }
}

/// Every page has its own icon, and every icon is one of the images the
/// executable carries.
pub proof fn law_page_icons_are_embedded(page: Page, other: Page)
    ensures
        crate::assets::embedded_names().contains(page_icon(page)),
        page != other ==> page_icon(page) != page_icon(other),
{
    let names = crate::assets::embedded_names();
    match page {
        Page::Mods => assert(names[6] == page_icon(page)),
        Page::Browse => assert(names[7] == page_icon(page)),
        Page::Configs => assert(names[8] == page_icon(page)),
        Page::Friends => assert(names[11] == page_icon(page)),
        Page::Servers => assert(names[5] == page_icon(page)),
        Page::Share => assert(names[9] == page_icon(page)),
        Page::Doctor => assert(names[10] == page_icon(page)),
    }
    reveal_strlit("nav_mods.svg");
    reveal_strlit("nav_browse.svg");
    reveal_strlit("nav_configs.svg");
    reveal_strlit("nav_friends.svg");
    reveal_strlit("nav_servers.svg");
    reveal_strlit("nav_share.svg");
    reveal_strlit("nav_doctor.svg");
    if page != other && page_icon(page) == page_icon(other) {
        assert(page_icon(page).len() == page_icon(other).len());
        assert(page_icon(page)[4] == page_icon(other)[4]);
        assert(page_icon(page)[5] == page_icon(other)[5]);
    }
}

} // verus!
