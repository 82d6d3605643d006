//! The properties the builders keep, stated and proved once for all
//! inputs: which fields a serialized bag holds, that the last-set value
//! of a field wins, and how a follow-up page request relates to the
//! first.

use vstd::prelude::*;

use crate::params::{bag_has_name, push_present, ParamValueView};
use crate::releases::{
    create_params_spec, list_params_spec, releases_path_spec, CreateReleaseView, ListReleasesView,
};

verus! {

/// Which names a bag gains from one `push_present` step: the pushed name
/// when the value is present, and nothing otherwise.
proof fn lemma_push_present_has_name(
    bag: Seq<(Seq<char>, ParamValueView)>,
    name: Seq<char>,
    value: Option<ParamValueView>,
    nm: Seq<char>,
)
    ensures
        bag_has_name(push_present(bag, name, value), nm) <==> (bag_has_name(bag, nm) || (value
            is Some && nm == name)),
{
    if let Some(val) = value {
        let b2 = bag.push((name, val));
        if bag_has_name(bag, nm) {
            let i = choose|i: int| 0 <= i < bag.len() && bag[i].0 == nm;
            assert(b2[i].0 == nm);
        }
        if nm == name {
            assert(b2[bag.len() as int].0 == nm);
        }
        if bag_has_name(b2, nm) {
            let i = choose|i: int| 0 <= i < b2.len() && b2[i].0 == nm;
            if i < bag.len() {
                assert(bag[i].0 == nm);
            }
        }
    }
}

/// Law: for every combination of set and absent optional fields, the
/// list bag holds an entry under a name if and only if that name is the
/// declared name of a set field — exactly the set fields, and no others
/// — and each set field's entry carries its set value.
pub proof fn lemma_list_bag_exact(v: ListReleasesView)
    ensures
        forall|nm: Seq<char>|
            #[trigger] bag_has_name(list_params_spec(v), nm) <==> ((v.per_page is Some && nm
                == "per_page"@) || (v.page is Some && nm == "page"@)),
        v.per_page matches Some(n) ==> list_params_spec(v).contains(
            ("per_page"@, ParamValueView::UInt(n as u64)),
        ),
        v.page matches Some(n) ==> list_params_spec(v).contains(
            ("page"@, ParamValueView::UInt(n as u64)),
        ),
{
    broadcast use vstd::seq_lib::lemma_seq_contains_after_push;

    let b0 = Seq::<(Seq<char>, ParamValueView)>::empty();
    let vp = match v.per_page {
        Some(n) => Some(ParamValueView::UInt(n as u64)),
        None => None,
    };
    let vg = match v.page {
        Some(n) => Some(ParamValueView::UInt(n as u64)),
        None => None,
    };
    let b1 = push_present(b0, "per_page"@, vp);
    let b2 = push_present(b1, "page"@, vg);
    assert forall|nm: Seq<char>|
        #[trigger] bag_has_name(list_params_spec(v), nm) <==> ((v.per_page is Some && nm
            == "per_page"@) || (v.page is Some && nm == "page"@)) by {
        lemma_push_present_has_name(b0, "per_page"@, vp, nm);
        lemma_push_present_has_name(b1, "page"@, vg, nm);
    }
    if let Some(n) = v.per_page {
        let entry = ("per_page"@, ParamValueView::UInt(n as u64));
        assert(b1 == b0.push(entry));
        assert(b1.contains(entry));
        if vg is Some {
            assert(b2 == b1.push(b2.last()));
        }
        assert(b2.contains(entry));
    }
    if let Some(n) = v.page {
        let entry = ("page"@, ParamValueView::UInt(n as u64));
        assert(b2 == b1.push(entry));
        assert(b2.contains(entry));
    }
}

/// Law: for every combination of set and absent optional fields, the
/// create bag opens with the required tag name, holds an entry under a
/// name if and only if that name is the tag name's or the declared name
/// of a set field — exactly the set fields, and no others — and each
/// set field's entry carries its set value.
pub proof fn lemma_create_bag_exact(v: CreateReleaseView)
    ensures
        create_params_spec(v)[0] == ("tag_name"@, ParamValueView::Text(v.tag_name)),
        forall|nm: Seq<char>|
            #[trigger] bag_has_name(create_params_spec(v), nm) <==> (nm == "tag_name"@ || (
            v.target_commitish is Some && nm == "target_commitish"@) || (v.name is Some && nm
                == "name"@) || (v.body is Some && nm == "body"@) || (v.draft is Some && nm
                == "draft"@) || (v.prerelease is Some && nm == "prerelease"@)),
        v.target_commitish matches Some(s) ==> create_params_spec(v).contains(
            ("target_commitish"@, ParamValueView::Text(s)),
        ),
        v.name matches Some(s) ==> create_params_spec(v).contains(
            ("name"@, ParamValueView::Text(s)),
        ),
        v.body matches Some(s) ==> create_params_spec(v).contains(
            ("body"@, ParamValueView::Text(s)),
        ),
        v.draft matches Some(b) ==> create_params_spec(v).contains(
            ("draft"@, ParamValueView::Flag(b)),
        ),
        v.prerelease matches Some(b) ==> create_params_spec(v).contains(
            ("prerelease"@, ParamValueView::Flag(b)),
        ),
{
    broadcast use vstd::seq_lib::lemma_seq_contains_after_push;

    let b0 = Seq::<(Seq<char>, ParamValueView)>::empty();
    let vtag = Some(ParamValueView::Text(v.tag_name));
    let vtc = match v.target_commitish {
        Some(s) => Some(ParamValueView::Text(s)),
        None => None,
    };
    let vnm = match v.name {
        Some(s) => Some(ParamValueView::Text(s)),
        None => None,
    };
    let vbd = match v.body {
        Some(s) => Some(ParamValueView::Text(s)),
        None => None,
    };
    let vdr = match v.draft {
        Some(b) => Some(ParamValueView::Flag(b)),
        None => None,
    };
    let vpr = match v.prerelease {
        Some(b) => Some(ParamValueView::Flag(b)),
        None => None,
    };
    let b1 = push_present(b0, "tag_name"@, vtag);
    let b2 = push_present(b1, "target_commitish"@, vtc);
    let b3 = push_present(b2, "name"@, vnm);
    let b4 = push_present(b3, "body"@, vbd);
    let b5 = push_present(b4, "draft"@, vdr);
    let b6 = push_present(b5, "prerelease"@, vpr);
    assert forall|nm: Seq<char>|
        #[trigger] bag_has_name(create_params_spec(v), nm) <==> (nm == "tag_name"@ || (
        v.target_commitish is Some && nm == "target_commitish"@) || (v.name is Some && nm
            == "name"@) || (v.body is Some && nm == "body"@) || (v.draft is Some && nm == "draft"@)
        || (v.prerelease is Some && nm == "prerelease"@)) by {
        lemma_push_present_has_name(b0, "tag_name"@, vtag, nm);
        lemma_push_present_has_name(b1, "target_commitish"@, vtc, nm);
        lemma_push_present_has_name(b2, "name"@, vnm, nm);
        lemma_push_present_has_name(b3, "body"@, vbd, nm);
        lemma_push_present_has_name(b4, "draft"@, vdr, nm);
        lemma_push_present_has_name(b5, "prerelease"@, vpr, nm);
    }
    lemma_chain_contains(v);
}

/// The membership half of [`lemma_create_bag_exact`]: each set optional
/// field's entry, with its set value, stands in the create bag.
proof fn lemma_chain_contains(v: CreateReleaseView)
    ensures
        create_params_spec(v)[0] == ("tag_name"@, ParamValueView::Text(v.tag_name)),
        v.target_commitish matches Some(s) ==> create_params_spec(v).contains(
            ("target_commitish"@, ParamValueView::Text(s)),
        ),
        v.name matches Some(s) ==> create_params_spec(v).contains(
            ("name"@, ParamValueView::Text(s)),
        ),
        v.body matches Some(s) ==> create_params_spec(v).contains(
            ("body"@, ParamValueView::Text(s)),
        ),
        v.draft matches Some(b) ==> create_params_spec(v).contains(
            ("draft"@, ParamValueView::Flag(b)),
        ),
        v.prerelease matches Some(b) ==> create_params_spec(v).contains(
            ("prerelease"@, ParamValueView::Flag(b)),
        ),
{
    broadcast use vstd::seq_lib::lemma_seq_contains_after_push;

    let bag = create_params_spec(v);
    if let Some(s) = v.target_commitish {
        assert(bag.contains(("target_commitish"@, ParamValueView::Text(s))));
    }
    if let Some(s) = v.name {
        assert(bag.contains(("name"@, ParamValueView::Text(s))));
    }
    if let Some(s) = v.body {
        assert(bag.contains(("body"@, ParamValueView::Text(s))));
    }
    if let Some(b) = v.draft {
        assert(bag.contains(("draft"@, ParamValueView::Flag(b))));
    }
    if let Some(b) = v.prerelease {
        assert(bag.contains(("prerelease"@, ParamValueView::Flag(b))));
    }
}

/// Law: setting a list field twice leaves the builder exactly as if only
/// the last value had been set; the earlier value leaves no trace. The
/// setters' own contracts tie each chained call to one of these view
/// updates.
pub proof fn lemma_list_last_set_wins(
    v: ListReleasesView,
    first: u8,
    last: u8,
    pfirst: u32,
    plast: u32,
)
    ensures
        (ListReleasesView { per_page: Some(last), ..(ListReleasesView {
            per_page: Some(first),
            ..v
        }) }) == (ListReleasesView { per_page: Some(last), ..v }),
        (ListReleasesView { page: Some(plast), ..(ListReleasesView { page: Some(pfirst), ..v }) })
            == (ListReleasesView { page: Some(plast), ..v }),
{
}

/// Law: setting a create field twice leaves the builder exactly as if
/// only the last value had been set; the earlier value leaves no trace.
pub proof fn lemma_create_last_set_wins(
    v: CreateReleaseView,
    sfirst: Seq<char>,
    slast: Seq<char>,
    bfirst: bool,
    blast: bool,
)
    ensures
        (CreateReleaseView { target_commitish: Some(slast), ..(CreateReleaseView {
            target_commitish: Some(sfirst),
            ..v
        }) }) == (CreateReleaseView { target_commitish: Some(slast), ..v }),
        (CreateReleaseView { name: Some(slast), ..(CreateReleaseView { name: Some(sfirst), ..v }) })
            == (CreateReleaseView { name: Some(slast), ..v }),
        (CreateReleaseView { body: Some(slast), ..(CreateReleaseView { body: Some(sfirst), ..v }) })
            == (CreateReleaseView { body: Some(slast), ..v }),
        (CreateReleaseView { draft: Some(blast), ..(CreateReleaseView {
            draft: Some(bfirst),
            ..v
        }) }) == (CreateReleaseView { draft: Some(blast), ..v }),
        (CreateReleaseView { prerelease: Some(blast), ..(CreateReleaseView {
            prerelease: Some(bfirst),
            ..v
        }) }) == (CreateReleaseView { prerelease: Some(blast), ..v }),
{
}

/// Law: when a listing response names a next page, the follow-up builder
/// on the same scope, with the page advanced by one, targets the same
/// path, and its bag differs from the first request's only in the value
/// of its `page` entry, which grew by one.
pub proof fn lemma_next_page_request(v: ListReleasesView, next: u32)
    requires
        v.page matches Some(p) && p < u32::MAX && next == p + 1,
    ensures
        ({
            let w = ListReleasesView { page: Some(next), ..v };
            &&& releases_path_spec(w.repo.owner, w.repo.repo) == releases_path_spec(
                v.repo.owner,
                v.repo.repo,
            )
            &&& list_params_spec(w).len() == list_params_spec(v).len()
            &&& list_params_spec(w).drop_last() == list_params_spec(v).drop_last()
            &&& list_params_spec(v).last() matches (
                nm,
                ParamValueView::UInt(p),
            ) && nm == "page"@ && list_params_spec(w).last() == (
                "page"@,
                ParamValueView::UInt((p + 1) as u64),
            )
        }),
{
    let w = ListReleasesView { page: Some(next), ..v };
    assert(list_params_spec(w).drop_last() =~= list_params_spec(v).drop_last());
}

} // verus!
