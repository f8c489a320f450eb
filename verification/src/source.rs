//! Where the procedure of a run comes from: a local path, or a deployment that
//! was pulled.

use vstd::prelude::*;
use vstd::string::*;
use crate::dup::{push, Dup};
use crate::engine::caps::{field, member};
use crate::json::{json_text, Json, JsonField, JsonView};
use crate::order::{sort_by_text, sorted};
use crate::paths::{path_of, under, PathParts, PathPartsView};
use crate::text;
use crate::text::fitting_prefix;

verus! {

/// Where the procedure of a run comes from.
#[derive(Debug, PartialEq, Eq)]
pub enum RunSource {
    /// A pulled deployment; the operator picks one where none is named.
    Deployment(Option<String>),
    /// A file or a directory. Its runs are uploaded under the procedure that it
    /// is linked to where that is asked for.
    LocalPath {
        path: String,
        upload: bool,
    },
}

/// View of [`RunSource`].
pub enum RunSourceView {
    Deployment(Option<Seq<char>>),
    LocalPath {
        path: Seq<char>,
        upload: bool,
    },
}

impl DeepView for RunSource {
    type V = RunSourceView;

    open spec fn deep_view(&self) -> RunSourceView {
        match self {
            RunSource::Deployment(v) => RunSourceView::Deployment(v.deep_view()),
            RunSource::LocalPath { path, upload } => RunSourceView::LocalPath {
                path: path.deep_view(),
                upload: upload.deep_view(),
            },
        }
    }
}

/// A procedure that can be run.
#[derive(Debug, PartialEq, Eq)]
pub struct ResolvedSource {
    pub id: String,
    pub dir: PathParts,
    pub upload: bool,
    /// The procedure that a run could be uploaded to but is not.
    pub link_hint: Option<String>,
    /// The file that was named.
    pub yaml_hint: Option<String>,
}

/// View of [`ResolvedSource`].
pub struct ResolvedSourceView {
    pub id: Seq<char>,
    pub dir: PathPartsView,
    pub upload: bool,
    pub link_hint: Option<Seq<char>>,
    pub yaml_hint: Option<Seq<char>>,
}

impl DeepView for ResolvedSource {
    type V = ResolvedSourceView;

    open spec fn deep_view(&self) -> ResolvedSourceView {
        ResolvedSourceView {
            id: self.id.deep_view(),
            dir: self.dir.deep_view(),
            upload: self.upload.deep_view(),
            link_hint: self.link_hint.deep_view(),
            yaml_hint: self.yaml_hint.deep_view(),
        }
    }
}

/// What a path is.
#[derive(Debug, PartialEq, Eq)]
pub enum PathKind {
    Directory,
    File {
        parent: Option<String>,
    },
    Missing,
}

/// View of [`PathKind`].
pub enum PathKindView {
    Directory,
    File {
        parent: Option<Seq<char>>,
    },
    Missing,
}

impl DeepView for PathKind {
    type V = PathKindView;

    open spec fn deep_view(&self) -> PathKindView {
        match self {
            PathKind::Directory => PathKindView::Directory,
            PathKind::File { parent } => PathKindView::File {
                parent: parent.deep_view(),
            },
            PathKind::Missing => PathKindView::Missing,
        }
    }
}

/// Where a local procedure lies.
#[derive(Debug, PartialEq, Eq)]
pub struct LocalPlace {
    pub dir: String,
    pub yaml_hint: Option<String>,
}

/// View of [`LocalPlace`].
pub struct LocalPlaceView {
    pub dir: Seq<char>,
    pub yaml_hint: Option<Seq<char>>,
}

impl DeepView for LocalPlace {
    type V = LocalPlaceView;

    open spec fn deep_view(&self) -> LocalPlaceView {
        LocalPlaceView {
            dir: self.dir.deep_view(),
            yaml_hint: self.yaml_hint.deep_view(),
        }
    }
}

/// The procedure that a directory is linked to.
#[derive(Debug, PartialEq, Eq)]
pub struct Link {
    pub procedure_id: String,
    pub procedure_name: Option<String>,
}

/// View of [`Link`].
pub struct LinkView {
    pub procedure_id: Seq<char>,
    pub procedure_name: Option<Seq<char>>,
}

impl DeepView for Link {
    type V = LinkView;

    open spec fn deep_view(&self) -> LinkView {
        LinkView {
            procedure_id: self.procedure_id.deep_view(),
            procedure_name: self.procedure_name.deep_view(),
        }
    }
}

/// Why a deployment cannot be found.
#[derive(Debug, PartialEq, Eq)]
pub enum ProcedureDirError {
    InvalidId,
    /// The deployments cannot be found.
    NoDirectory(String),
    NotFound,
}

/// View of [`ProcedureDirError`].
pub enum ProcedureDirErrorView {
    InvalidId,
    NoDirectory(Seq<char>),
    NotFound,
}

impl DeepView for ProcedureDirError {
    type V = ProcedureDirErrorView;

    open spec fn deep_view(&self) -> ProcedureDirErrorView {
        match self {
            ProcedureDirError::InvalidId => ProcedureDirErrorView::InvalidId,
            ProcedureDirError::NoDirectory(v) => ProcedureDirErrorView::NoDirectory(v.deep_view()),
            ProcedureDirError::NotFound => ProcedureDirErrorView::NotFound,
        }
    }
}

/// Something in the directory of the deployments.
#[derive(Debug, PartialEq, Eq)]
pub struct DeploymentEntry {
    /// Its name, where that is a text.
    pub name: Option<String>,
    pub is_dir: bool,
}

/// View of [`DeploymentEntry`].
pub struct DeploymentEntryView {
    pub name: Option<Seq<char>>,
    pub is_dir: bool,
}

impl DeepView for DeploymentEntry {
    type V = DeploymentEntryView;

    open spec fn deep_view(&self) -> DeploymentEntryView {
        DeploymentEntryView {
            name: self.name.deep_view(),
            is_dir: self.is_dir.deep_view(),
        }
    }
}

/// Which procedure is run.
#[derive(Debug, PartialEq, Eq)]
pub enum Selection {
    Chosen(String),
    Fail {
        message: String,
        /// For the output.
        lines: Vec<String>,
    },
    /// The operator picks one of these.
    Pick(Vec<String>),
}

/// View of [`Selection`].
pub enum SelectionView {
    Chosen(Seq<char>),
    Fail {
        message: Seq<char>,
        lines: Seq<Seq<char>>,
    },
    Pick(Seq<Seq<char>>),
}

impl DeepView for Selection {
    type V = SelectionView;

    open spec fn deep_view(&self) -> SelectionView {
        match self {
            Selection::Chosen(v) => SelectionView::Chosen(v.deep_view()),
            Selection::Fail { message, lines } => SelectionView::Fail {
                message: message.deep_view(),
                lines: lines.deep_view(),
            },
            Selection::Pick(v) => SelectionView::Pick(v.deep_view()),
        }
    }
}

// ---------------------------------------------------------------------------
// Local paths
// ---------------------------------------------------------------------------

/// Where a local procedure lies: in a directory that was named, or in that of
/// a file that was named.
pub open spec fn local_place(
    path: Seq<char>,
    canonical: Seq<char>,
    kind: PathKindView,
) -> Result<LocalPlaceView, Seq<char>> {
    match kind {
        PathKindView::Directory => Ok(LocalPlaceView { dir: canonical, yaml_hint: None }),
        PathKindView::File { parent } => match parent {
            Some(dir) => Ok(LocalPlaceView { dir, yaml_hint: Some(canonical) }),
            None => Err("Cannot determine parent dir of "@ + canonical),
        },
        PathKindView::Missing => Err("Path does not exist: "@ + path),
    }
}

/// Where a local procedure lies. `canonical` is the path as the platform
/// resolved it, or why it could not.
pub fn classify_local_path(path: &str, canonical: Result<String, String>, kind: PathKind) -> (out:
    Result<LocalPlace, String>)
    ensures
        match canonical {
            Ok(c) => match local_place(path@, c@, kind.deep_view()) {
                Ok(place) => out is Ok && out->Ok_0.deep_view() == place,
                Err(message) => out is Err && out->Err_0@ == message,
            },
            Err(e) => out is Err && out->Err_0@ == "Cannot resolve "@ + path@ + ": "@ + e@,
        },
{
    match canonical {
        Ok(canonical) => match kind {
            PathKind::Directory => Ok(LocalPlace { dir: canonical, yaml_hint: None }),
            PathKind::File { parent } => match parent {
                Some(dir) => Ok(LocalPlace { dir, yaml_hint: Some(canonical) }),
                None => Err(text::concat2("Cannot determine parent dir of ", canonical.as_str())),
            },
            PathKind::Missing => Err(text::concat2("Path does not exist: ", path)),
        },
        Err(e) => {
            let mut message = text::concat3("Cannot resolve ", path, ": ");
            message.append(e.as_str());
            Err(message)
        },
    }
}

/// What an operator is told who asked for an upload from a directory that is
/// not linked.
pub const NOT_LINKED: &'static str =
    "Not linked to a procedure. Run `tofupilot link` first, or set TOFUPILOT_PROCEDURE_ID.";

/// The procedure that the environment names; an empty name does not count.
pub open spec fn named_in_env(env_id: Option<Seq<char>>) -> Option<Seq<char>> {
    match env_id {
        Some(id) => if id.len() > 0 {
            Some(id)
        } else {
            None
        },
        None => None,
    }
}

/// Whether the link of the directory is looked at: not where the environment
/// names the procedure of an upload.
pub open spec fn link_needed(upload: bool, env_id: Option<Seq<char>>) -> bool {
    !upload || named_in_env(env_id) is None
}

/// Whether the link of the directory is to be read.
pub fn needs_link(upload: bool, env_id: &Option<String>) -> (yes: bool)
    ensures
        yes == link_needed(upload, env_id.deep_view()),
{
    !upload || match env_id {
        Some(id) => id.as_str().is_empty(),
        None => true,
    }
}

/// A linked procedure for the operator.
pub open spec fn link_label(link: LinkView) -> Seq<char> {
    match link.procedure_name {
        Some(name) => name + " ("@ + link.procedure_id + ")"@,
        None => link.procedure_id,
    }
}

/// The procedure that the runs of an upload belong to.
pub open spec fn upload_target(env_id: Option<Seq<char>>, link: Option<LinkView>) -> Option<
    Seq<char>,
> {
    match named_in_env(env_id) {
        Some(id) => Some(id),
        None => match link {
            Some(l) => Some(l.procedure_id),
            None => None,
        },
    }
}

/// What a local path resolves to; none where an upload has no procedure.
pub open spec fn local_source(
    place: LocalPlaceView,
    dir_name: Option<Seq<char>>,
    upload: bool,
    env_id: Option<Seq<char>>,
    link: Option<LinkView>,
) -> Option<ResolvedSourceView> {
    if upload {
        match upload_target(env_id, link) {
            Some(id) => Some(
                ResolvedSourceView {
                    id,
                    dir: path_of(place.dir),
                    upload: true,
                    link_hint: None,
                    yaml_hint: place.yaml_hint,
                },
            ),
            None => None,
        }
    } else {
        Some(
            ResolvedSourceView {
                id: match dir_name {
                    Some(name) => name,
                    None => "local"@,
                },
                dir: path_of(place.dir),
                upload: false,
                link_hint: match link {
                    Some(l) => Some(link_label(l)),
                    None => None,
                },
                yaml_hint: place.yaml_hint,
            },
        )
    }
}

/// Resolves a local path. `dir_name` is the name of its directory where that
/// is a text, and `link` what the directory is linked to where that is looked
/// at.
pub fn resolve_local(
    place: LocalPlace,
    dir_name: Option<String>,
    upload: bool,
    env_id: Option<String>,
    link: Option<Link>,
) -> (out: Result<ResolvedSource, String>)
    ensures
        match local_source(
            place.deep_view(),
            dir_name.deep_view(),
            upload,
            env_id.deep_view(),
            link.deep_view(),
        ) {
            Some(source) => out is Ok && out->Ok_0.deep_view() == source,
            None => out is Err && out->Err_0@ == NOT_LINKED@,
        },
{
    let dir = PathParts::new(place.dir.as_str());
    if upload {
        let linked = match link {
            Some(l) => Some(l.procedure_id),
            None => None,
        };
        let target = match env_id {
            Some(id) => if id.as_str().is_empty() {
                linked
            } else {
                Some(id)
            },
            None => linked,
        };
        return match target {
            Some(id) => Ok(
                ResolvedSource {
                    id,
                    dir,
                    upload: true,
                    link_hint: None,
                    yaml_hint: place.yaml_hint,
                },
            ),
            None => Err(NOT_LINKED.to_string()),
        };
    }
    let link_hint = match link {
        Some(l) => match l.procedure_name {
            Some(name) => {
                let mut label = text::concat3(name.as_str(), " (", l.procedure_id.as_str());
                label.append(")");
                Some(label)
            },
            None => Some(l.procedure_id),
        },
        None => None,
    };
    let id = match dir_name {
        Some(name) => name,
        None => "local".to_string(),
    };
    Ok(ResolvedSource { id, dir, upload: false, link_hint, yaml_hint: place.yaml_hint })
}

// ---------------------------------------------------------------------------
// Deployments
// ---------------------------------------------------------------------------

/// Whether an identity can name a directory of its own.
pub open spec fn valid_id(id: Seq<char>) -> bool {
    id.len() > 0 && id != "."@ && id != ".."@ && !id.contains('/') && !id.contains('\\')
}

/// Whether an identity can name a directory of its own.
pub fn is_valid_id(id: &str) -> (yes: bool)
    ensures
        yes == valid_id(id@),
{
    !id.is_empty() && !text::same(id, ".") && !text::same(id, "..") && !text::contains_char(id, '/')
        && !text::contains_char(id, '\\')
}

/// The directory of a deployment. `deployments` is where they lie, or why that
/// is not known; `is_dir` says whether that of the procedure is there.
pub fn resolve_procedure_dir(
    procedure_id: &str,
    deployments: &Result<String, String>,
    is_dir: bool,
) -> (dir: Result<PathParts, ProcedureDirError>)
    ensures
        dir is Ok <==> valid_id(procedure_id@) && deployments is Ok && is_dir,
        dir matches Ok(d) ==> d.deep_view() == under(
            path_of(deployments->Ok_0@),
            procedure_id@,
        ),
        dir matches Err(e) ==> e.deep_view() == (if !valid_id(procedure_id@) {
            ProcedureDirErrorView::InvalidId
        } else if deployments is Err {
            ProcedureDirErrorView::NoDirectory(deployments->Err_0@)
        } else {
            ProcedureDirErrorView::NotFound
        }),
{
    if !is_valid_id(procedure_id) {
        return Err(ProcedureDirError::InvalidId);
    }
    match deployments {
        Ok(base) => if is_dir {
            Ok(PathParts::new(base.as_str()).join(procedure_id))
        } else {
            Err(ProcedureDirError::NotFound)
        },
        Err(e) => Err(ProcedureDirError::NoDirectory(e.dup())),
    }
}

/// What a deployment resolves to: its runs are uploaded.
pub fn resolve_deployment(id: String, dir: PathParts) -> (source: ResolvedSource)
    ensures
        source.deep_view() == (ResolvedSourceView {
            id: id@,
            dir: dir.deep_view(),
            upload: true,
            link_hint: None,
            yaml_hint: None,
        }),
{
    ResolvedSource { id, dir, upload: true, link_hint: None, yaml_hint: None }
}

/// What an operator is told where nothing was pulled.
pub const NO_DEPLOYMENTS: &'static str = "No deployments found. Run `tofupilot pull` first.";

/// What an agent is told who did not name one of several deployments.
pub const SEVERAL_DEPLOYMENTS: &'static str =
    "Multiple deployments found. Use --procedure to select one.";

/// Whether a name is that of a deployment, and not of one that is being
/// pulled or was replaced.
pub open spec fn settled(name: Seq<char>) -> bool {
    !".tmp"@.is_suffix_of(name) && !".old"@.is_suffix_of(name) && !".staging"@.is_suffix_of(name)
}

/// The identities among what lies in the directory of the deployments.
pub open spec fn deployed_ids(entries: Seq<DeploymentEntryView>) -> Seq<Seq<char>>
    decreases entries.len(),
{
    if entries.len() == 0 {
        Seq::empty()
    } else {
        let rest = deployed_ids(entries.drop_last());
        let e = entries.last();
        if e.is_dir && e.name is Some && settled(e.name->Some_0) {
            rest.push(e.name->Some_0)
        } else {
            rest
        }
    }
}

fn list_ids(entries: &Vec<DeploymentEntry>) -> (ids: Vec<String>)
    ensures
        ids.deep_view() == deployed_ids(entries.deep_view()),
{
    let mut ids: Vec<String> = Vec::new();
    let mut i: usize = 0;
    assert(ids.deep_view() =~= deployed_ids(entries.deep_view().take(0)));
    while i < entries.len()
        invariant
            i <= entries@.len(),
            ids.deep_view() == deployed_ids(entries.deep_view().take(i as int)),
        decreases entries@.len() - i,
    {
        let ghost seen = entries.deep_view().take(i + 1);
        assert(seen.drop_last() =~= entries.deep_view().take(i as int));
        assert(seen.last() == entries@[i as int].deep_view());
        if entries[i].is_dir {
            match &entries[i].name {
                Some(name) => {
                    if !text::ends_with(name.as_str(), ".tmp") && !text::ends_with(
                        name.as_str(),
                        ".old",
                    ) && !text::ends_with(name.as_str(), ".staging") {
                        push(&mut ids, name.dup());
                    }
                },
                None => {},
            }
        }
        i += 1;
    }
    assert(entries.deep_view().take(entries@.len() as int) =~= entries.deep_view());
    ids
}

/// The line that offers a procedure to an agent.
pub open spec fn offer_line(id: Seq<char>) -> Seq<char> {
    json_text(
        JsonView::Object(
            seq![
                member("type"@, JsonView::Text("procedure"@)),
                member("procedure_id"@, JsonView::Text(id)),
            ],
        ),
    )
}

fn make_offer_line(id: &str) -> (line: String)
    ensures
        line@ == offer_line(id@),
{
    let mut fields: Vec<JsonField> = Vec::new();
    push(&mut fields, field("type", Json::Text("procedure".to_string())));
    push(&mut fields, field("procedure_id", Json::Text(id.to_string())));
    assert(fields.deep_view() =~= seq![
        member("type"@, JsonView::Text("procedure"@)),
        member("procedure_id"@, JsonView::Text(id@)),
    ]);
    Json::object(fields).render()
}

/// Which procedure is run: the one that was named, the only one there is, or
/// one that the operator picks. An agent cannot pick.
pub open spec fn selection_of(
    named: Option<Seq<char>>,
    entries: Seq<DeploymentEntryView>,
    json_mode: bool,
) -> SelectionView {
    let ids = sorted::<String>(deployed_ids(entries));
    match named {
        Some(id) => SelectionView::Chosen(id),
        None => if ids.len() == 0 {
            SelectionView::Fail { message: NO_DEPLOYMENTS@, lines: Seq::empty() }
        } else if ids.len() == 1 {
            SelectionView::Chosen(ids[0])
        } else if json_mode {
            SelectionView::Fail {
                message: SEVERAL_DEPLOYMENTS@,
                lines: ids.map_values(|id: Seq<char>| offer_line(id)),
            }
        } else {
            SelectionView::Pick(ids)
        },
    }
}

/// Decides which procedure is run; `entries` is what lies in the directory of
/// the deployments, nothing where there is no such directory.
pub fn resolve_procedure_id(
    named: &Option<String>,
    entries: &Vec<DeploymentEntry>,
    json_mode: bool,
) -> (out: Selection)
    ensures
        out.deep_view() == selection_of(named.deep_view(), entries.deep_view(), json_mode),
{
    match named {
        Some(id) => {
            return Selection::Chosen(id.dup());
        },
        None => {},
    }
    let found = list_ids(entries);
    let ids = sort_by_text(&found);
    let ghost seen = sorted::<String>(deployed_ids(entries.deep_view()));
    let mut lines: Vec<String> = Vec::new();
    assert(lines.deep_view() =~= Seq::empty());
    assert(ids@.len() == seen.len());
    if ids.len() == 0 {
        return Selection::Fail { message: NO_DEPLOYMENTS.to_string(), lines };
    }
    if ids.len() == 1 {
        assert(seen[0] == ids@[0]@);
        return Selection::Chosen(ids[0].dup());
    }
    if json_mode {
        let mut i: usize = 0;
        while i < ids.len()
            invariant
                i <= ids@.len(),
                lines@.len() == i,
                forall|k: int| 0 <= k < i ==> (#[trigger] lines@[k])@ == offer_line(ids@[k]@),
            decreases ids@.len() - i,
        {
            lines.push(make_offer_line(ids[i].as_str()));
            i += 1;
        }
        assert(lines.deep_view() =~= seen.map_values(|id: Seq<char>| offer_line(id)));
        return Selection::Fail { message: SEVERAL_DEPLOYMENTS.to_string(), lines };
    }
    Selection::Pick(ids)
}

/// How many characters of a commit an operator is shown.
pub const SHOWN_SHA: usize = 7;

/// A procedure as the operator is shown it, with the commit that was pulled
/// where that is known.
pub open spec fn picker_label(id: Seq<char>, sha: Option<Seq<char>>) -> Seq<char> {
    match sha {
        Some(s) => id + " ("@ + fitting_prefix(s, SHOWN_SHA as nat) + ")"@,
        None => id,
    }
}

/// A procedure as the operator is shown it.
pub fn label_procedure(id: &str, sha: &Option<String>) -> (label: String)
    ensures
        label@ == picker_label(id@, sha.deep_view()),
{
    match sha {
        Some(s) => {
            let short = text::prefix_within(s.as_str(), SHOWN_SHA);
            let mut label = text::concat3(id, " (", short.as_str());
            label.append(")");
            label
        },
        None => id.to_string(),
    }
}

// ---------------------------------------------------------------------------
// Laws
// ---------------------------------------------------------------------------

/// A run from a local path is uploaded only where that was asked for, and the
/// operator is told of the link only where it was not.
pub proof fn law_local_runs_stay_local(
    place: LocalPlaceView,
    dir_name: Option<Seq<char>>,
    upload: bool,
    env_id: Option<Seq<char>>,
    link: Option<LinkView>,
)
    ensures
        local_source(place, dir_name, upload, env_id, link) matches Some(s) ==> s.upload == upload
            && (s.link_hint is Some ==> !upload),
        !upload ==> local_source(place, dir_name, upload, env_id, link) is Some,
{
}

/// The link does not matter where it is not looked at.
pub proof fn law_unread_link_does_not_matter(
    place: LocalPlaceView,
    dir_name: Option<Seq<char>>,
    upload: bool,
    env_id: Option<Seq<char>>,
    link: Option<LinkView>,
)
    requires
        !link_needed(upload, env_id),
    ensures
        local_source(place, dir_name, upload, env_id, link) == local_source(
            place,
            dir_name,
            upload,
            env_id,
            None,
        ),
{
}

/// A deployment that is found lies directly below the deployments, under its
/// own name.
pub proof fn law_ids_stay_below(id: Seq<char>, i: int)
    requires
        valid_id(id),
        0 <= i < id.len(),
    ensures
        id[i] != '/',
        id[i] != '\\',
{
    if id[i] == '/' {
        assert(id.contains('/'));
    }
    if id[i] == '\\' {
        assert(id.contains('\\'));
    }
}

/// No deployment is offered that is being pulled or was replaced.
pub proof fn law_only_settled_deployments(entries: Seq<DeploymentEntryView>, i: int)
    requires
        0 <= i < deployed_ids(entries).len(),
    ensures
        settled(deployed_ids(entries)[i]),
    decreases entries.len(),
{
    if i < deployed_ids(entries.drop_last()).len() {
        law_only_settled_deployments(entries.drop_last(), i);
    }
}

} // verus!
