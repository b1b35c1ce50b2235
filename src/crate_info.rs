use vstd::prelude::*;

use crate::picker::PackageDetail;

verus! {

/// A line of the package detail table.
#[derive(Debug, Clone, Copy, PartialEq, Eq, Hash, Structural)]
pub enum InfoRow {
    Name,
    CreatedAt,
    UpdatedAt,
    MaxVersion,
    Description,
    Homepage,
    Repository,
    RecentDownloads,
    MaxStableVersion,
}

/// `s` followed by `r` when `present`.
pub open spec fn push_if(s: Seq<InfoRow>, present: bool, r: InfoRow) -> Seq<InfoRow> {
    if present {
        s.push(r)
    } else {
        s
    }
}

/// The lines shown for `d`: the four fixed ones, then each optional field
/// that is present, in a fixed order.
pub open spec fn info_rows(d: PackageDetail) -> Seq<InfoRow> {
    let fixed = seq![InfoRow::Name, InfoRow::CreatedAt, InfoRow::UpdatedAt, InfoRow::MaxVersion];
    let s1 = push_if(fixed, d.description is Some, InfoRow::Description);
    let s2 = push_if(s1, d.homepage is Some, InfoRow::Homepage);
    let s3 = push_if(s2, d.repository is Some, InfoRow::Repository);
    let s4 = push_if(s3, d.recent_downloads is Some, InfoRow::RecentDownloads);
    push_if(s4, d.max_stable_version is Some, InfoRow::MaxStableVersion)
}

/// The detail table of one package.
pub struct CrateInfoTableWidget {
    crate_info: PackageDetail,
}

impl CrateInfoTableWidget {
    pub closed spec fn info(&self) -> PackageDetail {
        self.crate_info
    }

    pub fn new(crate_info: PackageDetail) -> (r: CrateInfoTableWidget)
        ensures
            r.info() == crate_info,
    {
        CrateInfoTableWidget { crate_info }
    }

    pub fn crate_info(&self) -> (r: &PackageDetail)
        ensures
            *r == self.info(),
    {
        &self.crate_info
    }

    /// The lines of the table, in order.
    pub fn rows(&self) -> (r: Vec<InfoRow>)
        ensures
            r@ == info_rows(self.info()),
    {
        let mut r: Vec<InfoRow> = vec![InfoRow::Name, InfoRow::CreatedAt, InfoRow::UpdatedAt, InfoRow::MaxVersion];
        let d = &self.crate_info;
        if d.description.is_some() {
            r.push(InfoRow::Description);
        }
        if d.homepage.is_some() {
            r.push(InfoRow::Homepage);
        }
        if d.repository.is_some() {
            r.push(InfoRow::Repository);
        }
        if d.recent_downloads.is_some() {
            r.push(InfoRow::RecentDownloads);
        }
        if d.max_stable_version.is_some() {
            r.push(InfoRow::MaxStableVersion);
        }
        assert(r@ =~= info_rows(self.info()));
        r
    }
}

} // verus!
