//! The tiles of OpenTopoMap.

use crate::sources::{decimal, push_decimal, Attribution, TileSource};
use crate::tiles::TileId;
use crate::zoom::TILE_SIZE;
use vstd::prelude::*;
use vstd::string::StringExecFns;

verus! {

/// One of the three servers that hand out the same tiles.
#[derive(Clone, Copy, Debug, PartialEq, Eq, Structural)]
pub enum OpenTopoServer {
    A,
    B,
    C,
}

impl OpenTopoServer {
    /// The server's name: its letter in lower case.
    pub open spec fn name(self) -> Seq<char> {
        match self {
            OpenTopoServer::A => seq!['a'],
            OpenTopoServer::B => seq!['b'],
            OpenTopoServer::C => seq!['c'],
        }
    }

    /// The server's name.
    pub fn as_str(&self) -> (r: &'static str)
        ensures
            r@ == self.name(),
    {
        proof {
            reveal_strlit("a");
            reveal_strlit("b");
            reveal_strlit("c");
        }
        let r = match self {
            OpenTopoServer::A => "a",
            OpenTopoServer::B => "b",
            OpenTopoServer::C => "c",
        };
        assert(r@ =~= self.name());
        r
    }

    /// The server's name.
    pub fn to_string(&self) -> (r: String)
        ensures
            r@ == self.name(),
    {
        String::from_str(self.as_str())
    }
}

/// The tiles of OpenTopoMap, from one of its servers.
#[derive(Clone, Copy, Debug, PartialEq, Eq)]
pub struct OpenTopoMap(pub OpenTopoServer);

/// The address of a tile on a server of OpenTopoMap: the zoom, the column and
/// the row make up the path.
pub open spec fn tile_address(server: OpenTopoServer, tile_id: TileId) -> Seq<char> {
    "https://"@ + server.name() + ".tile.opentopomap.org/"@ + decimal(tile_id.zoom as nat) + "/"@
        + decimal(tile_id.x as nat) + "/"@ + decimal(tile_id.y as nat) + ".png"@
}

impl TileSource for OpenTopoMap {
    /// The address of a tile on the chosen server.
    fn tile_url(&self, tile_id: TileId) -> (r: String)
        ensures
            r@ == tile_address(self.0, tile_id),
    {
        let mut url = String::from_str("https://");
        url.append(self.0.as_str());
        url.append(".tile.opentopomap.org/");
        push_decimal(&mut url, tile_id.zoom as u32);
        url.append("/");
        push_decimal(&mut url, tile_id.x);
        url.append("/");
        push_decimal(&mut url, tile_id.y);
        url.append(".png");
        url
    }

    /// The credit that OpenTopoMap asks for.
    fn attribution(&self) -> (r: Attribution)
        ensures
            r.text@ == "Map data: \u{a9} OpenStreetMap contributors, SRTM | Map presentation: \u{a9} OpenTopoMap (CC-BY-SA)"@,
            r.url@ == "https://www.opentopomap.org/about"@,
    {
        Attribution {
            text: "Map data: \u{a9} OpenStreetMap contributors, SRTM | Map presentation: \u{a9} OpenTopoMap (CC-BY-SA)",
            url: "https://www.opentopomap.org/about",
        }
    }

    /// The tiles are `TILE_SIZE` pixels wide.
    fn tile_size(&self) -> (r: u32)
        ensures
            r == TILE_SIZE,
    {
        256
    }
}

} // verus!
