//! Installing a binary from the latest (or a tagged) release of a GitHub
//! repository: among the release's assets, the one whose name mentions the
//! most traits of this platform is downloaded and made executable.
use crate::steps::{bare, Atom, AtomModel, Step, StepModel};
use crate::text::{split_once, split_once_spec, str_eq, text_contains, contains_text};
use vstd::prelude::*;

verus! {

/// The `binary.github` action.
#[derive(Debug, PartialEq, Eq)]
pub struct BinaryGitHub {
    pub name: String,
    pub directory: String,
    pub repository: String,
    pub version: Option<String>,
}

/// A downloadable asset of a release.
#[derive(Debug, PartialEq, Eq)]
pub struct ReleaseAsset {
    pub name: String,
    pub url: String,
}

/// What asset selection reads of the platform: the operating system and
/// architecture the program was built for, the name of the operating
/// system's type, and whether it is macOS and 32-bit.
#[derive(Debug, PartialEq, Eq)]
pub struct Platform {
    pub os: String,
    pub arch: String,
    pub os_type: String,
    pub is_macos: bool,
    pub is_32_bit: bool,
}

/// The lowercase form of a text, as `str::to_lowercase` gives it.
pub uninterp spec fn lowercase(s: Seq<char>) -> Seq<char>;

/// Calls `str::to_lowercase`: the text with every character mapped to its
/// lowercase form by the Unicode rules; the result is named.
#[verifier::external_body]
fn to_lowercase(s: &str) -> (r: String)
    ensures
        r@ == lowercase(s@),
{
    s.to_lowercase()
}

/// The words that a well-chosen asset's name mentions.
pub open spec fn score_terms_of(p: Platform) -> Seq<Seq<char>> {
    seq![lowercase(p.os@), lowercase(p.arch@)] + (if p.is_macos {
        seq!["darwin"@, "apple"@]
    } else {
        seq![p.os_type@]
    }) + (if p.arch@ == "aarch64"@ {
        seq!["arm"@, "aarch"@]
    } else {
        seq!["unknown"@]
    }) + (if p.is_32_bit {
        seq!["32"@]
    } else {
        seq!["64"@]
    })
}

/// How many of `terms` occur in `name`.
pub open spec fn term_count(terms: Seq<Seq<char>>, name: Seq<char>) -> int
    decreases terms.len(),
{
    if terms.len() == 0 {
        0
    } else {
        term_count(terms.drop_last(), name) + if contains_text(name, terms.last()) {
            1int
        } else {
            0int
        }
    }
}

proof fn lemma_term_count_bounds(terms: Seq<Seq<char>>, name: Seq<char>)
    ensures
        0 <= term_count(terms, name) <= terms.len(),
    decreases terms.len(),
{
    if terms.len() > 0 {
        lemma_term_count_bounds(terms.drop_last(), name);
    }
}

proof fn lemma_score_terms_len(p: Platform)
    ensures
        score_terms_of(p).len() <= 7,
{
    let a = seq![lowercase(p.os@), lowercase(p.arch@)];
    let b: Seq<Seq<char>> = if p.is_macos { seq!["darwin"@, "apple"@] } else { seq![p.os_type@] };
    let c: Seq<Seq<char>> = if p.arch@ == "aarch64"@ { seq!["arm"@, "aarch"@] } else { seq!["unknown"@] };
    let d: Seq<Seq<char>> = if p.is_32_bit { seq!["32"@] } else { seq!["64"@] };
    assert(a.len() == 2 && b.len() <= 2 && c.len() <= 2 && d.len() == 1);
    assert(score_terms_of(p) == a + b + c + d);
    assert((a + b).len() == a.len() + b.len());
    assert((a + b + c).len() == (a + b).len() + c.len());
    assert((a + b + c + d).len() == (a + b + c).len() + d.len());
}

/// Whether `i` is the position of the first of the highest scores.
pub open spec fn is_best(scores: Seq<i32>, i: int) -> bool {
    &&& 0 <= i < scores.len()
    &&& forall|j: int| 0 <= j < scores.len() ==> scores[j] <= scores[i]
    &&& forall|j: int| 0 <= j < i ==> scores[j] < scores[i]
}

/// The score of each asset: how many terms its lowercase name mentions.
pub open spec fn asset_scores(terms: Seq<Seq<char>>, assets: Seq<ReleaseAsset>) -> Seq<i32> {
    Seq::new(assets.len(), |i: int| term_count(terms, lowercase(assets[i].name@)) as i32)
}

/// Where the binary is written: the action's directory, `/`, its name.
pub open spec fn binary_path(b: BinaryGitHub) -> Seq<char> {
    b.directory@ + "/"@ + b.name@
}

/// Download the asset at `url` to the binary's path, then make it
/// executable.
pub open spec fn binary_steps(b: BinaryGitHub, url: Seq<char>) -> Seq<StepModel> {
    seq![
        bare(AtomModel::HttpDownload { url, to: binary_path(b) }),
        bare(AtomModel::FileChmod { path: binary_path(b), mode: 0o755 }),
    ]
}

impl Platform {
    /// The words that a well-chosen asset's name mentions: the operating
    /// system and architecture in lowercase; `darwin` and `apple` on macOS,
    /// else the name of the operating system's type; `arm` and `aarch` on
    /// `aarch64`, else `unknown`; `32` or `64` by the system's width.
    pub fn score_terms(&self) -> (r: Vec<String>)
        ensures
            r.deep_view() == score_terms_of(*self),
    {
        let mut r: Vec<String> = Vec::new();
        r.push(to_lowercase(self.os.as_str()));
        r.push(to_lowercase(self.arch.as_str()));
        if self.is_macos {
            r.push(String::from_str("darwin"));
            r.push(String::from_str("apple"));
        } else {
            r.push(self.os_type.clone());
        }
        if str_eq(self.arch.as_str(), "aarch64") {
            r.push(String::from_str("arm"));
            r.push(String::from_str("aarch"));
        } else {
            r.push(String::from_str("unknown"));
        }
        if self.is_32_bit {
            r.push(String::from_str("32"));
        } else {
            r.push(String::from_str("64"));
        }
        assert(r.deep_view() =~= score_terms_of(*self));
        r
    }
}

/// How many of `terms` occur in the (lowercase) name of an asset.
pub fn asset_score(terms: &Vec<String>, lowered_name: &str) -> (r: i32)
    requires
        terms@.len() < i32::MAX,
    ensures
        r == term_count(terms.deep_view(), lowered_name@),
{
    let mut score: i32 = 0;
    let mut i: usize = 0;
    while i < terms.len()
        invariant
            i <= terms@.len(),
            terms@.len() < i32::MAX,
            score == term_count(terms.deep_view().subrange(0, i as int), lowered_name@),
            0 <= score <= i,
        decreases terms.len() - i,
    {
        let ghost prefix = terms.deep_view().subrange(0, i + 1);
        assert(prefix.drop_last() =~= terms.deep_view().subrange(0, i as int));
        assert(prefix.last() == terms@[i as int]@);
        if text_contains(lowered_name, terms[i].as_str()) {
            score = score + 1;
        }
        i = i + 1;
    }
    assert(terms.deep_view().subrange(0, terms@.len() as int) =~= terms.deep_view());
    score
}

/// The position of the first of the highest scores, if there is any score.
pub fn best_asset(scores: &Vec<i32>) -> (r: Option<usize>)
    ensures
        r is None <==> scores@.len() == 0,
        r matches Some(i) ==> is_best(scores@, i as int),
{
    if scores.len() == 0 {
        return None;
    }
    let mut best: usize = 0;
    let mut i: usize = 1;
    while i < scores.len()
        invariant
            1 <= i <= scores@.len(),
            best < i,
            forall|j: int| 0 <= j < i ==> scores@[j] <= scores@[best as int],
            forall|j: int| 0 <= j < best ==> scores@[j] < scores@[best as int],
        decreases scores.len() - i,
    {
        if scores[i] > scores[best] {
            best = i;
        }
        i = i + 1;
    }
    Some(best)
}

impl BinaryGitHub {
    /// The owner and name of the repository, written `owner/name`.
    pub fn owner_and_repo(&self) -> (r: Option<(String, String)>)
        ensures
            r.deep_view() == split_once_spec(self.repository@, '/'),
    {
        split_once(self.repository.as_str(), '/')
    }

    /// The steps that install the binary, given the assets of the release:
    /// none where the release has no asset; else download the best-scored
    /// asset (the first of the highest scores) to the binary's path and make
    /// it executable.
    pub fn plan_with_assets(&self, platform: &Platform, assets: &Vec<ReleaseAsset>) -> (r: Vec<Step>)
        ensures
            assets@.len() == 0 ==> r@.len() == 0,
            assets@.len() > 0 ==> exists|i: int|
                is_best(asset_scores(score_terms_of(*platform), assets@), i) && r.deep_view() == binary_steps(
                    *self,
                    #[trigger] assets@[i].url@,
                ),
    {
        let terms = platform.score_terms();
        let ghost terms_model = score_terms_of(*platform);
        assert(terms@.len() == terms.deep_view().len());
        proof {
            lemma_score_terms_len(*platform);
        }
        let mut scores: Vec<i32> = Vec::new();
        let mut i: usize = 0;
        while i < assets.len()
            invariant
                i <= assets@.len(),
                terms.deep_view() == terms_model,
                terms@.len() <= 7,
                scores@ =~= asset_scores(terms_model, assets@).subrange(0, i as int),
            decreases assets.len() - i,
        {
            let lowered = to_lowercase(assets[i].name.as_str());
            let score = asset_score(&terms, lowered.as_str());
            proof {
                lemma_term_count_bounds(terms_model, lowercase(assets@[i as int].name@));
            }
            scores.push(score);
            i = i + 1;
        }
        assert(scores@ =~= asset_scores(terms_model, assets@));
        match best_asset(&scores) {
            None => Vec::new(),
            Some(b) => {
                let path = self.directory.clone().concat("/").concat(self.name.as_str());
                let r = vec![
                    Step::bare(Atom::HttpDownload { url: assets[b].url.clone(), to: path.clone() }),
                    Step::bare(Atom::FileChmod { path, mode: 0o755 }),
                ];
                assert(r.deep_view() =~= binary_steps(*self, assets@[b as int].url@));
                r
            },
        }
    }
}

} // verus!
