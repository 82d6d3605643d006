//! The releases resource: a scope bound to one repository, and the
//! operation builders for listing and creating releases.
//!
//! A builder accumulates optional parameters through chained setters and
//! is then asked for the two halves of a request: the path (a fixed
//! template with the owner and repository name formatted in) and the
//! serialized parameter bag, which holds exactly the fields that were
//! set, under their declared names, and omits the rest.

use vstd::prelude::*;

use crate::params::{
    bag_view, opt_flag, opt_text, opt_uint, push_present, Param, ParamValue, ParamValueView,
};
use crate::repos::{RepoIdentity, RepoIdentityView};

verus! {

/// The path both release operations target, for a given owner and
/// repository name.
pub open spec fn releases_path_spec(owner: Seq<char>, repo: Seq<char>) -> Seq<char> {
    "/repos/"@ + owner + "/"@ + repo + "/releases"@
}

/// A scope bound to one repository's releases. It borrows the parent
/// identity and holds no state of its own; each factory method returns a
/// fresh builder.
pub struct ReleasesHandler<'r> {
    parent: &'r RepoIdentity,
}

impl<'r> View for ReleasesHandler<'r> {
    type V = RepoIdentityView;

    closed spec fn view(&self) -> RepoIdentityView {
        self.parent@
    }
}

impl RepoIdentity {
    /// The releases scope of this repository.
    pub fn releases(&self) -> (r: ReleasesHandler<'_>)
        ensures
            r@ == self@,
    {
        ReleasesHandler::new(self)
    }
}

impl<'r> ReleasesHandler<'r> {
    pub(crate) fn new(parent: &'r RepoIdentity) -> (r: Self)
        ensures
            r@ == parent@,
    {
        ReleasesHandler { parent }
    }

    /// A builder for listing releases, with every optional parameter
    /// initially absent.
    pub fn list(&self) -> (r: ListReleasesBuilder<'r, '_>)
        ensures
            r@ == (ListReleasesView { repo: self@, per_page: None, page: None }),
    {
        ListReleasesBuilder::new(self)
    }
}

/// The mathematical value of a [`ListReleasesBuilder`]: the repository it
/// is bound to and its accumulated optional parameters.
pub ghost struct ListReleasesView {
    pub repo: RepoIdentityView,
    pub per_page: Option<u8>,
    pub page: Option<u32>,
}

/// The parameter bag a list builder serializes to: `per_page` and `page`,
/// each present exactly when it was set.
pub open spec fn list_params_spec(v: ListReleasesView) -> Seq<(Seq<char>, ParamValueView)> {
    push_present(
        push_present(
            Seq::empty(),
            "per_page"@,
            opt_uint(
                match v.per_page {
                    Some(n) => Some(n as u64),
                    None => None,
                },
            ),
        ),
        "page"@,
        opt_uint(
            match v.page {
                Some(n) => Some(n as u64),
                None => None,
            },
        ),
    )
}

/// A builder for one "list releases" request.
pub struct ListReleasesBuilder<'r, 'h> {
    handler: &'h ReleasesHandler<'r>,
    per_page: Option<u8>,
    page: Option<u32>,
}

impl<'r, 'h> View for ListReleasesBuilder<'r, 'h> {
    type V = ListReleasesView;

    closed spec fn view(&self) -> ListReleasesView {
        ListReleasesView { repo: self.handler@, per_page: self.per_page, page: self.page }
    }
}

impl<'r, 'h> ListReleasesBuilder<'r, 'h> {
    pub(crate) fn new(handler: &'h ReleasesHandler<'r>) -> (r: Self)
        ensures
            r@ == (ListReleasesView { repo: handler@, per_page: None, page: None }),
    {
        ListReleasesBuilder { handler, per_page: None, page: None }
    }

    /// Results per page (the service documents a maximum of 100).
    pub fn per_page(self, per_page: u8) -> (r: Self)
        ensures
            r@ == (ListReleasesView { per_page: Some(per_page), ..self@ }),
    {
        ListReleasesBuilder { per_page: Some(per_page), ..self }
    }

    /// Page number of the results to fetch.
    pub fn page(self, page: u32) -> (r: Self)
        ensures
            r@ == (ListReleasesView { page: Some(page), ..self@ }),
    {
        ListReleasesBuilder { page: Some(page), ..self }
    }

    /// The request path: the releases template with this builder's owner
    /// and repository name formatted in.
    pub fn path(&self) -> (r: String)
        ensures
            r@ == releases_path_spec(self@.repo.owner, self@.repo.repo),
    {
        release_path(self.handler.parent)
    }

    /// Serializes the builder into its query parameter bag: exactly the
    /// set fields, under their declared names, in declaration order.
    pub fn query_params(&self) -> (r: Vec<Param>)
        ensures
            bag_view(r@) == list_params_spec(self@),
    {
        let mut r: Vec<Param> = Vec::new();
        if let Some(n) = self.per_page {
            r.push(
                Param { name: String::from_str("per_page"), value: ParamValue::UInt(n as u64) },
            );
        }
        if let Some(n) = self.page {
            r.push(Param { name: String::from_str("page"), value: ParamValue::UInt(n as u64) });
        }
        proof {
            assert(bag_view(r@) =~= list_params_spec(self@));
        }
        r
    }
}

/// The mathematical value of a [`CreateReleaseBuilder`]: the repository
/// it is bound to, the required tag name, and its accumulated optional
/// parameters.
pub ghost struct CreateReleaseView {
    pub repo: RepoIdentityView,
    pub tag_name: Seq<char>,
    pub target_commitish: Option<Seq<char>>,
    pub name: Option<Seq<char>>,
    pub body: Option<Seq<char>>,
    pub draft: Option<bool>,
    pub prerelease: Option<bool>,
}

/// The body a create builder serializes to: `tag_name` always, then each
/// optional field exactly when it was set, in declaration order.
pub open spec fn create_params_spec(v: CreateReleaseView) -> Seq<(Seq<char>, ParamValueView)> {
    push_present(
        push_present(
            push_present(
                push_present(
                    push_present(
                        push_present(
                            Seq::empty(),
                            "tag_name"@,
                            Some(ParamValueView::Text(v.tag_name)),
                        ),
                        "target_commitish"@,
                        opt_text(v.target_commitish),
                    ),
                    "name"@,
                    opt_text(v.name),
                ),
                "body"@,
                opt_text(v.body),
            ),
            "draft"@,
            opt_flag(v.draft),
        ),
        "prerelease"@,
        opt_flag(v.prerelease),
    )
}

/// A builder for one "create release" request. The tag name is required
/// and set at construction; everything else defaults to absent. The
/// builder borrows every caller-supplied string and copies none of them
/// before serialization.
pub struct CreateReleaseBuilder<'r, 'h, 'tag, 'tc, 'nm, 'bd> {
    handler: &'h ReleasesHandler<'r>,
    tag_name: &'tag str,
    target_commitish: Option<&'tc str>,
    name: Option<&'nm str>,
    body: Option<&'bd str>,
    draft: Option<bool>,
    prerelease: Option<bool>,
}

impl<'r, 'h, 'tag, 'tc, 'nm, 'bd> View for CreateReleaseBuilder<'r, 'h, 'tag, 'tc, 'nm, 'bd> {
    type V = CreateReleaseView;

    closed spec fn view(&self) -> CreateReleaseView {
        CreateReleaseView {
            repo: self.handler@,
            tag_name: self.tag_name@,
            target_commitish: match self.target_commitish {
                Some(s) => Some(s@),
                None => None,
            },
            name: match self.name {
                Some(s) => Some(s@),
                None => None,
            },
            body: match self.body {
                Some(s) => Some(s@),
                None => None,
            },
            draft: self.draft,
            prerelease: self.prerelease,
        }
    }
}

impl<'r> ReleasesHandler<'r> {
    /// A builder for creating a release of the given tag name, with every
    /// optional parameter initially absent.
    pub fn create<'tag>(&self, tag_name: &'tag str) -> (r: CreateReleaseBuilder<'r, '_, 'tag, '_, '_, '_>)
        ensures
            r@ == (CreateReleaseView {
                repo: self@,
                tag_name: tag_name@,
                target_commitish: None,
                name: None,
                body: None,
                draft: None,
                prerelease: None,
            }),
    {
        CreateReleaseBuilder::new(self, tag_name)
    }
}

impl<'r, 'h, 'tag, 'tc, 'nm, 'bd> CreateReleaseBuilder<'r, 'h, 'tag, 'tc, 'nm, 'bd> {
    pub(crate) fn new(handler: &'h ReleasesHandler<'r>, tag_name: &'tag str) -> (r: Self)
        ensures
            r@ == (CreateReleaseView {
                repo: handler@,
                tag_name: tag_name@,
                target_commitish: None,
                name: None,
                body: None,
                draft: None,
                prerelease: None,
            }),
    {
        CreateReleaseBuilder {
            handler,
            tag_name,
            target_commitish: None,
            name: None,
            body: None,
            draft: None,
            prerelease: None,
        }
    }

    /// The commitish value the tag is created from, when the tag does not
    /// exist yet: any branch name or commit hash. Absent, the service
    /// uses the repository's default branch.
    pub fn target_commitish(self, target_commitish: &'tc str) -> (r: Self)
        ensures
            r@ == (CreateReleaseView { target_commitish: Some(target_commitish@), ..self@ }),
    {
        CreateReleaseBuilder { target_commitish: Some(target_commitish), ..self }
    }

    /// The display name of the release.
    pub fn name(self, name: &'nm str) -> (r: Self)
        ensures
            r@ == (CreateReleaseView { name: Some(name@), ..self@ }),
    {
        CreateReleaseBuilder { name: Some(name), ..self }
    }

    /// Text describing the contents of the tag.
    pub fn body(self, body: &'bd str) -> (r: Self)
        ensures
            r@ == (CreateReleaseView { body: Some(body@), ..self@ }),
    {
        CreateReleaseBuilder { body: Some(body), ..self }
    }

    /// Whether to mark the release as a draft.
    pub fn draft(self, draft: bool) -> (r: Self)
        ensures
            r@ == (CreateReleaseView { draft: Some(draft), ..self@ }),
    {
        CreateReleaseBuilder { draft: Some(draft), ..self }
    }

    /// Whether to mark the release as a prerelease.
    pub fn prerelease(self, prerelease: bool) -> (r: Self)
        ensures
            r@ == (CreateReleaseView { prerelease: Some(prerelease), ..self@ }),
    {
        CreateReleaseBuilder { prerelease: Some(prerelease), ..self }
    }

    /// The request path: the releases template with this builder's owner
    /// and repository name formatted in.
    pub fn path(&self) -> (r: String)
        ensures
            r@ == releases_path_spec(self@.repo.owner, self@.repo.repo),
    {
        release_path(self.handler.parent)
    }

    /// Serializes the builder into its body parameter bag: the tag name,
    /// then exactly the set optional fields, under their declared names,
    /// in declaration order. Caller-supplied strings are copied here and
    /// not before.
    pub fn body_params(&self) -> (r: Vec<Param>)
        ensures
            bag_view(r@) == create_params_spec(self@),
    {
        let mut r: Vec<Param> = Vec::new();
        r.push(
            Param {
                name: String::from_str("tag_name"),
                value: ParamValue::Text(self.tag_name.to_owned()),
            },
        );
        if let Some(s) = self.target_commitish {
            r.push(
                Param {
                    name: String::from_str("target_commitish"),
                    value: ParamValue::Text(s.to_owned()),
                },
            );
        }
        if let Some(s) = self.name {
            r.push(Param { name: String::from_str("name"), value: ParamValue::Text(s.to_owned()) });
        }
        if let Some(s) = self.body {
            r.push(Param { name: String::from_str("body"), value: ParamValue::Text(s.to_owned()) });
        }
        if let Some(b) = self.draft {
            r.push(Param { name: String::from_str("draft"), value: ParamValue::Flag(b) });
        }
        if let Some(b) = self.prerelease {
            r.push(Param { name: String::from_str("prerelease"), value: ParamValue::Flag(b) });
        }
        proof {
            assert(bag_view(r@) =~= create_params_spec(self@));
        }
        r
    }
}

/// Formats the fixed releases path template around a repository identity.
fn release_path(repo: &RepoIdentity) -> (r: String)
    ensures
        r@ == releases_path_spec(repo@.owner, repo@.repo),
{
    let mut s = String::from_str("/repos/");
    s.append(repo.owner());
    s.append("/");
    s.append(repo.repo());
    s.append("/releases");
    s
}

} // verus!
