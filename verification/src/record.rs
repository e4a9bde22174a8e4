//! The canonical release record, its author information, the lookup
//! selector, and the assembly of a record from one fetch's raw output.

use vstd::prelude::*;

use crate::items::{Item, ItemV};

verus! {

use crate::ast::items_of_text;

/// The author of a release: a login name and an avatar image URL.
#[derive(Debug)]
pub struct AuthorInfo {
    pub name: String,
    pub image: String,
}

/// Mathematical value of an `AuthorInfo`.
pub struct AuthorInfoV {
    pub name: Seq<char>,
    pub image: Seq<char>,
}

impl View for AuthorInfo {
    type V = AuthorInfoV;

    open spec fn view(&self) -> AuthorInfoV {
        AuthorInfoV { name: self.name@, image: self.image@ }
    }
}

impl Clone for AuthorInfo {
    fn clone(&self) -> (res: Self)
        ensures
            res@ == self@,
    {
        AuthorInfo { name: self.name.clone(), image: self.image.clone() }
    }
}

/// The canonical record answering "what changed in release X of repository
/// R": identification, presentation fields, and the reduced release-note
/// fragments.
#[derive(Debug)]
pub struct ApiResponse {
    pub repo: String,
    pub org: String,
    pub title: String,
    pub latest: bool,
    pub author: Option<AuthorInfo>,
    pub tag: String,
    pub items: Vec<Item>,
    pub url: String,
}

/// Mathematical value of an `ApiResponse`.
pub struct ApiResponseV {
    pub repo: Seq<char>,
    pub org: Seq<char>,
    pub title: Seq<char>,
    pub latest: bool,
    pub author: Option<AuthorInfoV>,
    pub tag: Seq<char>,
    pub items: Seq<ItemV>,
    pub url: Seq<char>,
}

impl View for ApiResponse {
    type V = ApiResponseV;

    open spec fn view(&self) -> ApiResponseV {
        ApiResponseV {
            repo: self.repo@,
            org: self.org@,
            title: self.title@,
            latest: self.latest,
            author: match self.author {
                Some(a) => Some(a@),
                None => None,
            },
            tag: self.tag@,
            items: self.items.deep_view(),
            url: self.url@,
        }
    }
}

/// A deep copy of a fragment list.
fn copy_items(items: &Vec<Item>) -> (r: Vec<Item>)
    ensures
        r.deep_view() == items.deep_view(),
{
    let mut out: Vec<Item> = Vec::new();
    let mut i: usize = 0;
    while i < items.len()
        invariant
            0 <= i <= items.len(),
            out.deep_view() =~= items.deep_view().take(i as int),
        decreases items.len() - i,
    {
        let ghost pre = out.deep_view();
        let it = items[i].clone();
        proof {
            assert(it.deep_view() == items.deep_view()[i as int]);
        }
        out.push(it);
        proof {
            assert(out.deep_view() =~= pre.push(items.deep_view()[i as int]));
            assert(pre.push(items.deep_view()[i as int]) =~= items.deep_view().take(i + 1));
        }
        i = i + 1;
    }
    proof {
        assert(items.deep_view().take(i as int) =~= items.deep_view());
    }
    out
}

impl Clone for ApiResponse {
    fn clone(&self) -> (res: Self)
        ensures
            res@ == self@,
    {
        ApiResponse {
            repo: self.repo.clone(),
            org: self.org.clone(),
            title: self.title.clone(),
            latest: self.latest,
            author: match &self.author {
                Some(a) => Some(a.clone()),
                None => None,
            },
            tag: self.tag.clone(),
            items: copy_items(&self.items),
            url: self.url.clone(),
        }
    }
}

/// The query mode of a release request: the latest release, or the release
/// carrying one explicit tag.
#[derive(Debug)]
pub enum Selector {
    Latest,
    Specific(String),
}

/// Mathematical value of a `Selector`.
pub enum SelectorV {
    Latest,
    Specific(Seq<char>),
}

impl View for Selector {
    type V = SelectorV;

    open spec fn view(&self) -> SelectorV {
        match self {
            Selector::Latest => SelectorV::Latest,
            Selector::Specific(t) => SelectorV::Specific(t@),
        }
    }
}

impl Clone for Selector {
    fn clone(&self) -> (res: Self)
        ensures
            res@ == self@,
    {
        match self {
            Selector::Latest => Selector::Latest,
            Selector::Specific(t) => Selector::Specific(t.clone()),
        }
    }
}

/// Whether a stored record satisfies a request for `(org, repo)` under a
/// selector: org and repo must match exactly, and then a `Latest` request is
/// satisfied only by a record carrying `latest == true`, while a
/// `Specific(t)` request is satisfied only by a record whose tag equals `t`.
/// Tag strings are never compared against the upstream "latest" pointer.
pub open spec fn sel_matches(
    rec: ApiResponseV,
    org: Seq<char>,
    repo: Seq<char>,
    sel: SelectorV,
) -> bool {
    &&& rec.org == org
    &&& rec.repo == repo
    &&& match sel {
        SelectorV::Latest => rec.latest,
        SelectorV::Specific(t) => rec.tag == t,
    }
}

impl ApiResponse {
    /// Whether this record satisfies a request for `(org, repo)` under the
    /// given selector.
    pub fn selected_by(&self, org: &String, repo: &String, sel: &Selector) -> (r: bool)
        ensures
            r == sel_matches(self@, org@, repo@, sel@),
    {
        let tag_ok = match sel {
            Selector::Latest => self.latest,
            Selector::Specific(t) => self.tag == *t,
        };
        self.org == *org && self.repo == *repo && tag_ok
    }
}

/// The raw output of one upstream fetch, already brought to plain values:
/// the optional human-readable name, the tag name, the optional author, the
/// optional markdown body, and the release's web URL.
#[derive(Debug)]
pub struct FetchedRelease {
    pub name: Option<String>,
    pub tag_name: String,
    pub author: Option<AuthorInfo>,
    pub body: Option<String>,
    pub html_url: String,
}

/// The record assembled from one fetch: the title falls back to the tag
/// name when the release has no human-readable name, the `latest` flag
/// records which selector the request used, and the items are the reduced
/// release body.
pub open spec fn assembled_view(
    org: Seq<char>,
    repo: Seq<char>,
    sel: SelectorV,
    f: FetchedRelease,
) -> ApiResponseV {
    ApiResponseV {
        repo: repo,
        org: org,
        title: match f.name {
            Some(n) => n@,
            None => f.tag_name@,
        },
        latest: sel is Latest,
        author: match f.author {
            Some(a) => Some(a@),
            None => None,
        },
        tag: f.tag_name@,
        items: match f.body {
            Some(b) => items_of_text(b@),
            None => Seq::empty(),
        },
        url: f.html_url@,
    }
}

impl ApiResponse {
    /// Assemble the canonical record shape from one fetch's raw output.
    pub fn assemble(org: String, repo: String, sel: &Selector, f: FetchedRelease) -> (r:
        ApiResponse)
        ensures
            r@ == assembled_view(org@, repo@, sel@, f),
    {
        let FetchedRelease { name, tag_name, author, body, html_url } = f;
        let title = match &name {
            Some(n) => n.clone(),
            None => tag_name.clone(),
        };
        let latest = matches!(sel, Selector::Latest);
        let items = Item::from_list(body);
        ApiResponse { repo, org, title, latest, author, tag: tag_name, items, url: html_url }
    }
}

} // verus!
