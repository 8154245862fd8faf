use vstd::prelude::*;

use crate::error::PlanError;
use crate::files::FileAction;
use crate::host::{file_name_of, is_regular_file, join_path, parent_of, path_file_name, path_join, path_parent};
use crate::manifest::Manifest;
use crate::steps::{
    bare, Atom, AtomModel, Initializer, InitializerCheck, InitializerCheckModel, InitializerModel,
    Step, StepModel,
};

verus! {

/// Links a file (or the entries of a directory) of the manifest to a target.
/// `source` and `target` are the current names of `from` and `to`; either
/// name of each must be given.
#[derive(Debug, PartialEq, Eq)]
pub struct FileLink {
    pub from: Option<String>,
    pub source: Option<String>,
    pub target: Option<String>,
    pub to: Option<String>,
    pub walk_dir: bool,
}

pub struct FileLinkModel {
    pub from: Option<Seq<char>>,
    pub source: Option<Seq<char>>,
    pub target: Option<Seq<char>>,
    pub to: Option<Seq<char>>,
    pub walk_dir: bool,
}

impl DeepView for FileLink {
    type V = FileLinkModel;

    open spec fn deep_view(&self) -> FileLinkModel {
        FileLinkModel {
            from: self.from.deep_view(),
            source: self.source.deep_view(),
            target: self.target.deep_view(),
            to: self.to.deep_view(),
            walk_dir: self.walk_dir,
        }
    }
}

/// Whether the action names both what to link and where.
pub open spec fn link_complete(l: FileLinkModel) -> bool {
    (l.source is Some || l.from is Some) && (l.target is Some || l.to is Some)
}

/// What to link: `source`, else `from`.
pub open spec fn link_source(l: FileLinkModel) -> Seq<char> {
    match l.source {
        Some(s) => s,
        None => l.from->0,
    }
}

/// Where to link: `target`, else `to`.
pub open spec fn link_target(l: FileLinkModel) -> Seq<char> {
    match l.target {
        Some(t) => t,
        None => l.to->0,
    }
}

/// The step that links `target` to `source`, run only when `source` exists.
pub open spec fn link_step(source: Seq<char>, target: Seq<char>) -> StepModel {
    StepModel {
        atom: AtomModel::FileLink { source, target },
        initializers: seq![InitializerModel::Ensure(InitializerCheckModel::FileExists(source))],
        finalizers: seq![],
    }
}

/// Linking one path: create the target's parent directory, then link;
/// nothing when the target has no parent.
pub open spec fn no_walk_plan(from: Seq<char>, to: Seq<char>, parent: Option<Seq<char>>) -> Seq<StepModel> {
    match parent {
        Some(p) => seq![bare(AtomModel::DirectoryCreate { path: p }), link_step(from, to)],
        None => seq![],
    }
}

/// Linking the entries of a directory: create the target directory, then
/// one link per (source, target) pair, in order.
pub open spec fn walk_plan(to: Seq<char>, links: Seq<(Seq<char>, Seq<char>)>) -> Seq<StepModel> {
    seq![bare(AtomModel::DirectoryCreate { path: to })] + Seq::new(
        links.len(),
        |i: int| link_step(links[i].0, links[i].1),
    )
}

/// The (source, target) pairs of the entries `children` of a directory,
/// given the target of each (`None` for an entry without a file name): one
/// pair per entry that has a target, in order.
pub open spec fn named_links(children: Seq<Seq<char>>, targets: Seq<Option<Seq<char>>>) -> Seq<
    (Seq<char>, Seq<char>),
>
    decreases children.len(),
{
    if children.len() == 0 || targets.len() == 0 {
        seq![]
    } else {
        let prev = named_links(children.drop_last(), targets.drop_last());
        match targets.last() {
            Some(t) => prev.push((children.last(), t)),
            None => prev,
        }
    }
}

/// Where each entry of a directory is linked into `to`: under its file
/// name, for an entry that has one.
pub open spec fn walk_targets(to: Seq<char>, children: Seq<Seq<char>>) -> Seq<Option<Seq<char>>> {
    Seq::new(
        children.len(),
        |i: int|
            match path_file_name(children[i]) {
                Some(name) => Some(path_join(to, name)),
                None => None,
            },
    )
}

/// The plan of the link `l` from the resolved source `from`, given whether
/// `from` is a file: a single link of `from` to the target (after creating
/// the target's parent directory, where it has one) when `from` is a file
/// or the action does not walk directories; else the target directory and
/// one link per entry of `children` that has a file name, under that name.
pub open spec fn link_plan(
    l: FileLinkModel,
    from: Seq<char>,
    from_is_file: bool,
    children: Seq<Seq<char>>,
) -> Seq<StepModel> {
    let to = link_target(l);
    if from_is_file || !l.walk_dir {
        no_walk_plan(from, to, path_parent(to))
    } else {
        walk_plan(to, named_links(children, walk_targets(to, children)))
    }
}

/// The default of `walk_dir`.
pub fn walk_dir_default() -> (r: bool)
    ensures
        r == false,
{
    false
}

fn make_link_step(source: String, target: String) -> (s: Step)
    ensures
        s.deep_view() == link_step(source@, target@),
{
    let s = Step {
        atom: Atom::FileLink { source: source.clone(), target },
        initializers: vec![Initializer::Ensure(InitializerCheck::FileExists(source))],
        finalizers: Vec::new(),
    };
    assert(s.initializers.deep_view() =~= seq![
        InitializerModel::Ensure(InitializerCheckModel::FileExists(source@)),
    ]);
    assert(s.finalizers.deep_view() =~= seq![]);
    s
}

impl FileLink {
    /// What to link: `source`, else `from`.
    pub fn source(&self) -> (r: String)
        requires
            self.source is Some || self.from is Some,
        ensures
            r@ == link_source(self.deep_view()),
    {
        match &self.source {
            Some(s) => s.clone(),
            None => match &self.from {
                Some(f) => f.clone(),
                None => String::new(),
            },
        }
    }

    /// Where to link: `target`, else `to`.
    pub fn target(&self) -> (r: String)
        requires
            self.target is Some || self.to is Some,
        ensures
            r@ == link_target(self.deep_view()),
    {
        match &self.target {
            Some(t) => t.clone(),
            None => match &self.to {
                Some(t) => t.clone(),
                None => String::new(),
            },
        }
    }

    /// Linking one path, given the parent directory of `to`.
    pub fn plan_no_walk_with_parent(from: String, to: String, parent: Option<String>) -> (r: Vec<Step>)
        ensures
            r.deep_view() == no_walk_plan(from@, to@, parent.deep_view()),
    {
        match parent {
            Some(p) => {
                let r = vec![Step::bare(Atom::DirectoryCreate { path: p }), make_link_step(from, to)];
                r
            },
            None => {
                let r: Vec<Step> = Vec::new();
                assert(r.deep_view() =~= seq![]);
                r
            },
        }
    }

    /// Linking one path on this host.
    pub fn plan_no_walk(from: String, to: String) -> (r: Vec<Step>)
        ensures
            r.deep_view() == no_walk_plan(from@, to@, path_parent(to@)),
    {
        let parent = parent_of(to.as_str());
        FileLink::plan_no_walk_with_parent(from, to, parent)
    }

    /// Linking the entries of a directory, given their (source, target) pairs.
    pub fn plan_walk_links(to: String, links: &Vec<(String, String)>) -> (r: Vec<Step>)
        ensures
            r.deep_view() == walk_plan(to@, links.deep_view()),
    {
        let ghost target = walk_plan(to@, links.deep_view());
        let mut r = vec![Step::bare(Atom::DirectoryCreate { path: to })];
        let mut i: usize = 0;
        assert(r.deep_view() =~= target.subrange(0, 1));
        while i < links.len()
            invariant
                i <= links@.len(),
                target == walk_plan(to@, links.deep_view()),
                r.deep_view() =~= target.subrange(0, i + 1),
            decreases links@.len() - i,
        {
            let (s, t) = &links[i];
            let step = make_link_step(s.clone(), t.clone());
            let ghost prev = r.deep_view();
            r.push(step);
            assert(r.deep_view() =~= prev.push(target[i + 1]));
            i = i + 1;
        }
        assert(target.subrange(0, i + 1) =~= target);
        r
    }

    /// The (source, target) pairs of the entries `children`, given the
    /// target of each (`None` for an entry without a file name): one pair per
    /// entry that has a target, in order.
    pub fn walk_links(children: &Vec<String>, targets: &Vec<Option<String>>) -> (links: Vec<(String, String)>)
        requires
            children@.len() == targets@.len(),
        ensures
            links.deep_view() == named_links(children.deep_view(), targets.deep_view()),
    {
        let mut links: Vec<(String, String)> = Vec::new();
        let mut i: usize = 0;
        assert(links.deep_view() =~= named_links(
            children.deep_view().subrange(0, 0),
            targets.deep_view().subrange(0, 0),
        ));
        while i < children.len()
            invariant
                i <= children@.len(),
                children@.len() == targets@.len(),
                links.deep_view() == named_links(
                    children.deep_view().subrange(0, i as int),
                    targets.deep_view().subrange(0, i as int),
                ),
            decreases children@.len() - i,
        {
            let ghost cs = children.deep_view().subrange(0, i + 1);
            let ghost ts = targets.deep_view().subrange(0, i + 1);
            assert(cs.drop_last() =~= children.deep_view().subrange(0, i as int));
            assert(ts.drop_last() =~= targets.deep_view().subrange(0, i as int));
            assert(cs.last() == children@[i as int]@);
            assert(ts.last() == targets@[i as int].deep_view());
            match &targets[i] {
                Some(t) => {
                    let ghost prev = links.deep_view();
                    links.push((children[i].clone(), t.clone()));
                    assert(links.deep_view() =~= prev.push((children@[i as int]@, t@)));
                },
                None => {},
            }
            i = i + 1;
        }
        assert(children.deep_view().subrange(0, i as int) =~= children.deep_view());
        assert(targets.deep_view().subrange(0, i as int) =~= targets.deep_view());
        links
    }

    /// Linking the entries `children` of a directory into `to`, given the
    /// target of each entry (`None` where it has no file name): create `to`,
    /// then one link per entry that has a target, in order.
    pub fn plan_walk_with_targets(to: String, children: &Vec<String>, targets: &Vec<Option<String>>) -> (r: Vec<
        Step,
    >)
        requires
            children@.len() == targets@.len(),
        ensures
            r.deep_view() == walk_plan(to@, named_links(children.deep_view(), targets.deep_view())),
    {
        let links = FileLink::walk_links(children, targets);
        FileLink::plan_walk_links(to, &links)
    }

    /// Linking the entries `children` of a directory into `to` on this host:
    /// each entry that has a file name is linked under that name in `to`.
    pub fn plan_walk(to: String, children: &Vec<String>) -> (r: Vec<Step>)
        ensures
            r.deep_view() == walk_plan(to@, named_links(children.deep_view(), walk_targets(to@, children.deep_view()))),
    {
        let ghost all = walk_targets(to@, children.deep_view());
        let mut targets: Vec<Option<String>> = Vec::new();
        let mut i: usize = 0;
        while i < children.len()
            invariant
                i <= children@.len(),
                all == walk_targets(to@, children.deep_view()),
                targets@.len() == i,
                targets.deep_view() == all.subrange(0, i as int),
            decreases children@.len() - i,
        {
            let target = match file_name_of(children[i].as_str()) {
                Some(name) => Some(join_path(to.as_str(), name.as_str())),
                None => None,
            };
            assert(children.deep_view()[i as int] == children@[i as int]@);
            assert(target.deep_view() == all[i as int]);
            let ghost before = targets@;
            let ghost before_dv = targets.deep_view();
            targets.push(target);
            assert forall|j: int| 0 <= j <= i implies #[trigger] targets.deep_view()[j] == all[j] by {
                assert(targets.deep_view()[j] == targets@[j].deep_view());
                if j < i {
                    assert(targets@[j] == before[j]);
                    assert(before_dv[j] == before[j].deep_view());
                    assert(before_dv[j] == all[j]);
                } else {
                    assert(targets@[j] == target);
                }
            }
            assert(targets.deep_view() =~= all.subrange(0, i + 1));
            i = i + 1;
        }
        assert(targets.deep_view() =~= all);
        FileLink::plan_walk_with_targets(to, children, &targets)
    }

    /// Plans the link from the resolved source `from`, given whether it is a
    /// file: a single link when it is or the action does not walk
    /// directories, else one link per entry among `children`.
    pub fn plan_with_kind(&self, from: String, from_is_file: bool, children: &Vec<String>) -> (r: Vec<Step>)
        requires
            self.target is Some || self.to is Some,
        ensures
            r.deep_view() == link_plan(self.deep_view(), from@, from_is_file, children.deep_view()),
    {
        let to = self.target();
        if from_is_file || !self.walk_dir {
            FileLink::plan_no_walk(from, to)
        } else {
            FileLink::plan_walk(to, children)
        }
    }

    /// Plans the link from the resolved source `from` on this host, asking
    /// the machine whether `from` is a file.
    pub fn plan_resolved(&self, from: String, children: &Vec<String>) -> (r: Vec<Step>)
        requires
            self.target is Some || self.to is Some,
        ensures
            exists|from_is_file: bool|
                r.deep_view() == #[trigger] link_plan(self.deep_view(), from@, from_is_file, children.deep_view()),
    {
        let is_file = is_regular_file(from.as_str());
        self.plan_with_kind(from, is_file, children)
    }

    /// Plans the link: resolves the source in the manifest's files, then
    /// plans from it.
    pub fn plan(&self, manifest: &Manifest, children: &Vec<String>) -> (r: Result<Vec<Step>, PlanError>)
        requires
            link_complete(self.deep_view()),
        ensures
            match r {
                Ok(steps) => manifest.root_dir is Some && exists|from: Seq<char>, from_is_file: bool|
                    steps.deep_view() == #[trigger] link_plan(self.deep_view(), from, from_is_file, children.deep_view()),
                Err(PlanError::MissingRootDir) => manifest.root_dir is None,
                Err(PlanError::UnresolvedPath { path }) => manifest.root_dir is Some && path@ == link_source(
                    self.deep_view(),
                ),
                Err(_) => false,
            },
    {
        let source = self.source();
        let from = match self.resolve(manifest, source.as_str()) {
            Ok(f) => f,
            Err(e) => return Err(e),
        };
        assert(manifest.root_dir is Some);
        let steps = self.plan_resolved(from, children);
        Ok(steps)
    }

    /// The one-line description of this action, naming `from` and `to`.
    pub fn summarize(&self) -> (r: String)
        ensures
            r@ == "Linking file "@ + (match self.from {
                Some(f) => f@,
                None => "unknown"@,
            }) + " to "@ + (match self.to {
                Some(t) => t@,
                None => "unknown"@,
            }),
    {
        let from = match &self.from {
            Some(f) => f.clone(),
            None => String::from_str("unknown"),
        };
        let to = match &self.to {
            Some(t) => t.clone(),
            None => String::from_str("unknown"),
        };
        String::from_str("Linking file ").concat(from.as_str()).concat(" to ").concat(to.as_str())
    }
}

impl FileAction for FileLink {}

/// Every step that a link plans is either the creation of a directory or a
/// link, and each link is gated only on its own source existing; the
/// single link of a source that is linked directly goes from that source
/// to the target, after creating the target's parent.
pub proof fn lemma_links_are_gated_on_their_source(
    l: FileLinkModel,
    from: Seq<char>,
    from_is_file: bool,
    children: Seq<Seq<char>>,
)
    ensures
        ({
            let steps = link_plan(l, from, from_is_file, children);
            &&& forall|i: int|
                0 <= i < steps.len() ==> (#[trigger] steps[i]).finalizers.len() == 0 && (steps[i].atom is DirectoryCreate
                    || steps[i].atom is FileLink)
            &&& forall|i: int|
                0 <= i < steps.len() && (#[trigger] steps[i]).atom is FileLink ==> steps[i].initializers == seq![
                    InitializerModel::Ensure(InitializerCheckModel::FileExists(steps[i].atom->FileLink_source)),
                ]
            &&& forall|i: int|
                0 <= i < steps.len() && (#[trigger] steps[i]).atom is DirectoryCreate ==> steps[i].initializers.len()
                    == 0
            &&& (from_is_file || !l.walk_dir) ==> (path_parent(link_target(l)) matches Some(parent) ==> {
                &&& steps.len() == 2
                &&& steps[0].atom == AtomModel::DirectoryCreate { path: parent }
                &&& steps[1].atom == AtomModel::FileLink { source: from, target: link_target(l) }
            })
        }),
{
}

} // verus!
