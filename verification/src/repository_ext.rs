use crate::branch_status::BranchStatus;
use crate::status_entry_ext::{classify, classify_spec, ChangeFlags};
use git2::{Buf, Error, Object, Oid, Reference, Repository};
use vstd::prelude::*;
use vstd::string::*;

verus! {

/// A handle on an open repository. Opaque: every question about it is asked
/// through git2.
#[verifier::external_type_specification]
#[verifier::external_body]
pub struct ExRepository(git2::Repository);

/// The error of a failed git2 call. Opaque; it is handed on unchanged.
#[verifier::external_type_specification]
#[verifier::external_body]
pub struct ExError(git2::Error);

/// A reference of a repository. Opaque.
#[verifier::external_type_specification]
#[verifier::external_body]
pub struct ExReference<'a>(git2::Reference<'a>);

/// The id of an object. Opaque.
#[verifier::external_type_specification]
#[verifier::external_body]
pub struct ExOid(git2::Oid);

/// An object of a repository. Opaque.
#[verifier::external_type_specification]
#[verifier::external_body]
pub struct ExObject<'a>(git2::Object<'a>);

/// A byte buffer that libgit2 filled. Opaque.
#[verifier::external_type_specification]
#[verifier::external_body]
pub struct ExBuf(git2::Buf);

/// The operation that a repository is in the middle of.
#[derive(Clone, Copy, Debug, PartialEq, Eq, Structural)]
pub enum RepoState {
    Clean,
    Merge,
    Revert,
    RevertSequence,
    CherryPick,
    CherryPickSequence,
    Bisect,
    Rebase,
    RebaseInteractive,
    RebaseMerge,
    ApplyMailbox,
    ApplyMailboxOrRebase,
}

/// Why a lookup failed, as far as the label depends on it.
#[derive(Clone, Copy, Debug, PartialEq, Eq, Structural)]
pub enum ErrorKind {
    /// The head names a branch that has no commit yet.
    UnbornBranch,
    /// What was asked for does not exist.
    NotFound,
    /// Any other failure.
    Other,
}

/// Why a question about a repository went unanswered.
#[derive(Debug)]
pub enum BackendError {
    /// A lookup in the repository failed; the error is that of git2.
    QueryFailed(Error),
    /// The head-name file of an interactive rebase could not be read; the
    /// message is that of the failed read.
    SideFileUnreadable(String),
}

/// What a status query takes in besides the paths that are tracked and
/// changed.
#[derive(Clone, Copy, Debug, PartialEq, Eq, Structural)]
pub struct StatusQuery {
    /// Files that git does not track are reported.
    pub untracked: bool,
    /// Files that git ignores are reported.
    pub ignored: bool,
    /// Files without a change are reported.
    pub unmodified: bool,
    /// Submodules are passed over.
    pub no_submodules: bool,
}

/// Which name the label starts with, and so which lookup gives it.
#[derive(Clone, Copy, Debug, PartialEq, Eq, Structural)]
pub enum Lookup {
    /// The branch that an interactive rebase works on.
    RebaseHeadName,
    /// The short id of the commit that a detached head points at.
    ShortId,
    /// The short name of the branch that the head names.
    Shorthand,
}

/// Where the repository stands, with the name that was found for it.
#[derive(Debug)]
pub enum Position {
    /// In an interactive rebase of the branch with this name.
    Rebasing(String),
    /// On a detached head, with the short id of its commit where one was found.
    Detached(Option<String>),
    /// On a branch, with its short name where the head has one.
    Branch(Option<String>),
}

/// The label of a detached head whose commit has no short id.
pub open spec fn detached_text() -> Seq<char> {
    "HEAD (detached)"@
}

/// The label of a repository whose head names no branch.
pub open spec fn no_branch_text() -> Seq<char> {
    "HEAD (no branch)"@
}

/// A base name followed, where an operation is in progress, by a colon and
/// the tag of that operation.
pub open spec fn label_text(base: Seq<char>, action: Option<Seq<char>>) -> Seq<char> {
    match action {
        Some(tag) => base + ":"@ + tag,
        None => base,
    }
}

/// The name that `found` holds, or else `fallback`.
pub open spec fn text_or(found: Option<String>, fallback: Seq<char>) -> Seq<char> {
    match found {
        Some(name) => name@,
        None => fallback,
    }
}

impl RepoState {
    /// The tag of the operation in progress; none in a clean repository.
    pub open spec fn action_text(self) -> Option<Seq<char>> {
        match self {
            RepoState::ApplyMailbox => Some("am"@),
            RepoState::ApplyMailboxOrRebase => Some("am/rebase"@),
            RepoState::Bisect => Some("bisect"@),
            RepoState::CherryPick => Some("cherry"@),
            RepoState::CherryPickSequence => Some("cherry-seq"@),
            RepoState::Merge => Some("merge"@),
            RepoState::Rebase => Some("rebase"@),
            RepoState::RebaseInteractive => Some("rebase-i"@),
            RepoState::RebaseMerge => Some("rebase-m"@),
            RepoState::Revert => Some("revert"@),
            RepoState::RevertSequence => Some("revert-seq"@),
            RepoState::Clean => None,
        }
    }

    /// Returns the tag of the operation in progress.
    pub fn action(self) -> (r: Option<&'static str>)
        ensures
            tag_is(r, self),
    {
        match self {
            RepoState::ApplyMailbox => Some("am"),
            RepoState::ApplyMailboxOrRebase => Some("am/rebase"),
            RepoState::Bisect => Some("bisect"),
            RepoState::CherryPick => Some("cherry"),
            RepoState::CherryPickSequence => Some("cherry-seq"),
            RepoState::Merge => Some("merge"),
            RepoState::Rebase => Some("rebase"),
            RepoState::RebaseInteractive => Some("rebase-i"),
            RepoState::RebaseMerge => Some("rebase-m"),
            RepoState::Revert => Some("revert"),
            RepoState::RevertSequence => Some("revert-seq"),
            RepoState::Clean => None,
        }
    }
}

/// `tag` is the tag of the operation that `state` names.
pub open spec fn tag_is(tag: Option<&str>, state: RepoState) -> bool {
    match tag {
        Some(t) => state.action_text() == Some(t@),
        None => state.action_text().is_none(),
    }
}

impl ErrorKind {
    /// A head that is unborn or not found is no failure: the repository then
    /// has no head.
    pub open spec fn spec_means_no_head(self) -> bool {
        self == ErrorKind::UnbornBranch || self == ErrorKind::NotFound
    }

    /// Tells whether a failed head lookup of this kind stands for "no head".
    pub fn means_no_head(self) -> (r: bool)
        ensures
            r == self.spec_means_no_head(),
    {
        match self {
            ErrorKind::UnbornBranch => true,
            ErrorKind::NotFound => true,
            ErrorKind::Other => false,
        }
    }
}

/// Returns the query behind the status of a working copy: nothing that is
/// untracked, ignored or unmodified is reported, and submodules are passed
/// over.
pub fn status_query() -> (r: StatusQuery)
    ensures
        r == (StatusQuery {
            untracked: false,
            ignored: false,
            unmodified: false,
            no_submodules: true,
        }),
{
    StatusQuery { untracked: false, ignored: false, unmodified: false, no_submodules: true }
}

/// The lookup that names the position: that of the rebased branch in an
/// interactive rebase, whatever the head; else by whether the head is
/// detached.
pub open spec fn spec_lookup_for(state: RepoState, detached: bool) -> Lookup {
    if state == RepoState::RebaseInteractive {
        Lookup::RebaseHeadName
    } else if detached {
        Lookup::ShortId
    } else {
        Lookup::Shorthand
    }
}

/// Chooses the lookup that names the position.
pub fn lookup_for(state: RepoState, detached: bool) -> (r: Lookup)
    ensures
        r == spec_lookup_for(state, detached),
{
    if state == RepoState::RebaseInteractive {
        Lookup::RebaseHeadName
    } else if detached {
        Lookup::ShortId
    } else {
        Lookup::Shorthand
    }
}

/// Returns the name that `found` holds, or else `fallback`.
pub fn name_or(found: Option<String>, fallback: &str) -> (r: String)
    ensures
        r@ == text_or(found, fallback@),
{
    match found {
        Some(name) => name,
        None => String::from_str(fallback),
    }
}

impl Position {
    /// The name that the label starts with.
    pub open spec fn base_text(self) -> Seq<char> {
        match self {
            Position::Rebasing(name) => name@,
            Position::Detached(short) => text_or(short, detached_text()),
            Position::Branch(name) => text_or(name, no_branch_text()),
        }
    }

    /// The lookup that found this position.
    pub open spec fn lookup(self) -> Lookup {
        match self {
            Position::Rebasing(_) => Lookup::RebaseHeadName,
            Position::Detached(_) => Lookup::ShortId,
            Position::Branch(_) => Lookup::Shorthand,
        }
    }

    /// Returns the name that the label starts with.
    pub fn base(self) -> (r: String)
        ensures
            r@ == self.base_text(),
    {
        match self {
            Position::Rebasing(name) => name,
            Position::Detached(short) => name_or(short, "HEAD (detached)"),
            Position::Branch(name) => name_or(name, "HEAD (no branch)"),
        }
    }
}

/// The name that a lookup comes to. Where it found none, a sentinel stands
/// in: that of a detached head for a short id, else that of no branch.
pub open spec fn found_text(lookup: Lookup, found: Option<String>) -> Seq<char> {
    text_or(
        found,
        if lookup == Lookup::ShortId {
            detached_text()
        } else {
            no_branch_text()
        },
    )
}

/// Returns the position that a lookup found, from the name that it gave.
pub fn position_of(lookup: Lookup, found: Option<String>) -> (r: Position)
    ensures
        r.lookup() == lookup,
        r.base_text() == found_text(lookup, found),
        match r {
            Position::Rebasing(name) => name@ == found_text(lookup, found),
            Position::Detached(short) => short == found,
            Position::Branch(name) => name == found,
        },
{
    match lookup {
        Lookup::RebaseHeadName => Position::Rebasing(name_or(found, "HEAD (no branch)")),
        Lookup::ShortId => Position::Detached(found),
        Lookup::Shorthand => Position::Branch(found),
    }
}

/// Joins a base name and the tag of the operation in progress, if any.
pub fn with_action(base: String, action: Option<&str>) -> (r: String)
    ensures
        r@ == label_text(
            base@,
            match action {
                Some(tag) => Some(tag@),
                None => None,
            },
        ),
{
    match action {
        Some(tag) => base.concat(":").concat(tag),
        None => base,
    }
}

/// The label of a repository in `state`, whose head is detached or not, and
/// in which the lookup that these two call for gave `found`.
pub open spec fn resolved_text(state: RepoState, detached: bool, found: Option<String>) -> Seq<
    char,
> {
    label_text(found_text(spec_lookup_for(state, detached), found), state.action_text())
}

/// Returns the label of a position in a repository that is in `state`.
pub fn label(position: Position, state: RepoState) -> (r: String)
    ensures
        r@ == label_text(position.base_text(), state.action_text()),
{
    with_action(position.base(), state.action())
}

/// A label is never empty, provided that no name that was found is empty.
pub proof fn lemma_label_nonempty(position: Position, state: RepoState)
    requires
        position matches Position::Rebasing(name) ==> name@.len() > 0,
        position matches Position::Detached(Some(name)) ==> name@.len() > 0,
        position matches Position::Branch(Some(name)) ==> name@.len() > 0,
    ensures
        label_text(position.base_text(), state.action_text()).len() > 0,
{
    reveal_strlit("HEAD (detached)");
    reveal_strlit("HEAD (no branch)");
}

/// A label starts with its base name. In a clean repository it is the base
/// name; else exactly one colon and one tag follow.
pub proof fn lemma_label_shape(base: Seq<char>, state: RepoState)
    ensures
        label_text(base, state.action_text()).subrange(0, base.len() as int) == base,
        state == RepoState::Clean <==> label_text(base, state.action_text()) == base,
        state.action_text() matches Some(tag) ==> {
            &&& tag.len() > 0
            &&& label_text(base, Some(tag)).len() == base.len() + 1 + tag.len()
            &&& label_text(base, Some(tag))[base.len() as int] == ':'
            &&& label_text(base, Some(tag)).skip(base.len() as int + 1) == tag
        },
{
    reveal_strlit(":");
    reveal_strlit("am");
    reveal_strlit("am/rebase");
    reveal_strlit("bisect");
    reveal_strlit("cherry");
    reveal_strlit("cherry-seq");
    reveal_strlit("merge");
    reveal_strlit("rebase");
    reveal_strlit("rebase-i");
    reveal_strlit("rebase-m");
    reveal_strlit("revert");
    reveal_strlit("revert-seq");
    let text = label_text(base, state.action_text());
    assert(text.subrange(0, base.len() as int) =~= base);
    match state.action_text() {
        Some(tag) => {
            assert(text.skip(base.len() as int + 1) =~= tag);
            assert(text.len() != base.len());
        },
        None => {},
    }
}

/// `Repository::state`: the operation that the repository is in the middle
/// of, variant for variant. What it is depends on the repository's files, so
/// nothing is claimed of it. git2 panics on a state that is none of these
/// twelve; libgit2 reports no other.
#[verifier::external_body]
fn repo_state(repo: &Repository) -> RepoState {
    match repo.state() {
        git2::RepositoryState::Clean => RepoState::Clean,
        git2::RepositoryState::Merge => RepoState::Merge,
        git2::RepositoryState::Revert => RepoState::Revert,
        git2::RepositoryState::RevertSequence => RepoState::RevertSequence,
        git2::RepositoryState::CherryPick => RepoState::CherryPick,
        git2::RepositoryState::CherryPickSequence => RepoState::CherryPickSequence,
        git2::RepositoryState::Bisect => RepoState::Bisect,
        git2::RepositoryState::Rebase => RepoState::Rebase,
        git2::RepositoryState::RebaseInteractive => RepoState::RebaseInteractive,
        git2::RepositoryState::RebaseMerge => RepoState::RebaseMerge,
        git2::RepositoryState::ApplyMailbox => RepoState::ApplyMailbox,
        git2::RepositoryState::ApplyMailboxOrRebase => RepoState::ApplyMailboxOrRebase,
    }
}

/// `Repository::head`: the reference that the head resolves to, or the error
/// of the lookup. Nothing is claimed of either.
#[verifier::external_body]
fn repo_head<'a>(repo: &'a Repository) -> Result<Reference<'a>, Error> {
    repo.head()
}

/// `Repository::head_detached`: whether the head points at a commit directly.
/// Nothing is claimed of the answer.
#[verifier::external_body]
fn repo_head_detached(repo: &Repository) -> Result<bool, Error> {
    repo.head_detached()
}

/// `Error::code`: the code of an error, told apart as far as the label
/// depends on it. Nothing is claimed of the answer.
#[verifier::external_body]
fn error_kind(e: &Error) -> ErrorKind {
    match e.code() {
        git2::ErrorCode::UnbornBranch => ErrorKind::UnbornBranch,
        git2::ErrorCode::NotFound => ErrorKind::NotFound,
        _ => ErrorKind::Other,
    }
}

/// `Reference::target`: the id that a direct reference points at; none for a
/// symbolic one. Nothing is claimed of the answer.
#[verifier::external_body]
fn reference_target(reference: &Reference) -> Option<Oid> {
    reference.target()
}

/// `Reference::shorthand`: the short, readable name of a reference, copied;
/// none where the name is not UTF-8. Nothing is claimed of the answer.
#[verifier::external_body]
fn reference_shorthand(reference: &Reference) -> Option<String> {
    reference.shorthand().ok().map(|name| name.to_string())
}

/// `Repository::find_reference`: the reference of the given full name, or the
/// error of the lookup. Nothing is claimed of either.
#[verifier::external_body]
fn find_reference<'a>(repo: &'a Repository, name: &str) -> Result<Reference<'a>, Error> {
    repo.find_reference(name)
}

/// `Repository::find_object`, asked for an object of any type: the object of
/// the given id, or the error of the lookup. Nothing is claimed of either.
#[verifier::external_body]
fn find_object<'a>(repo: &'a Repository, oid: Oid) -> Result<Object<'a>, Error> {
    repo.find_object(oid, None)
}

/// `Object::short_id`: the shortest prefix of the object's id that names no
/// other object, as a buffer. Nothing is claimed of it.
#[verifier::external_body]
fn object_short_id(object: &Object) -> Result<Buf, Error> {
    object.short_id()
}

/// `Buf::as_str`: the text in a buffer, copied; none where it is not UTF-8.
/// Nothing is claimed of the answer.
#[verifier::external_body]
fn buf_text(buf: &Buf) -> Option<String> {
    buf.as_str().ok().map(|text| text.to_string())
}

/// White space as `str::trim` takes it: the characters that have the
/// Unicode property White_Space.
pub open spec fn is_white_space(c: char) -> bool {
    let n: u32 = c as u32;
    ||| 0x09 <= n <= 0x0D
    ||| n == 0x20
    ||| n == 0x85
    ||| n == 0xA0
    ||| n == 0x1680
    ||| 0x2000 <= n <= 0x200A
    ||| n == 0x2028
    ||| n == 0x2029
    ||| n == 0x202F
    ||| n == 0x205F
    ||| n == 0x3000
}

/// A text without the white space at its start.
pub open spec fn trim_start_text(s: Seq<char>) -> Seq<char>
    decreases s.len(),
{
    if s.len() > 0 && is_white_space(s.first()) {
        trim_start_text(s.drop_first())
    } else {
        s
    }
}

/// A text without the white space at its end.
pub open spec fn trim_end_text(s: Seq<char>) -> Seq<char>
    decreases s.len(),
{
    if s.len() > 0 && is_white_space(s.last()) {
        trim_end_text(s.drop_last())
    } else {
        s
    }
}

/// A text without the white space at both ends.
pub open spec fn trim_text(s: Seq<char>) -> Seq<char> {
    trim_end_text(trim_start_text(s))
}

proof fn lemma_trim_start_text(s: Seq<char>)
    ensures
        trim_start_text(s).len() <= s.len(),
        trim_start_text(s) == s.skip(s.len() - trim_start_text(s).len()),
        forall|k: int|
            0 <= k < s.len() - trim_start_text(s).len() ==> is_white_space(#[trigger] s[k]),
        trim_start_text(s).len() > 0 ==> !is_white_space(trim_start_text(s).first()),
    decreases s.len(),
{
    if s.len() > 0 && is_white_space(s.first()) {
        let t = s.drop_first();
        let r = trim_start_text(t);
        lemma_trim_start_text(t);
        assert(t.skip(t.len() - r.len()) =~= s.skip(s.len() - r.len()));
        assert forall|k: int| 0 <= k < s.len() - r.len() implies is_white_space(
            #[trigger] s[k],
        ) by {
            if k > 0 {
                assert(s[k] == t[k - 1]);
            }
        }
    } else {
        assert(s.skip(0) =~= s);
    }
}

proof fn lemma_trim_end_text(s: Seq<char>)
    ensures
        trim_end_text(s).len() <= s.len(),
        trim_end_text(s) == s.take(trim_end_text(s).len() as int),
        forall|k: int| trim_end_text(s).len() <= k < s.len() ==> is_white_space(#[trigger] s[k]),
        trim_end_text(s).len() > 0 ==> !is_white_space(trim_end_text(s).last()),
    decreases s.len(),
{
    if s.len() > 0 && is_white_space(s.last()) {
        let t = s.drop_last();
        let r = trim_end_text(t);
        lemma_trim_end_text(t);
        assert(t.take(r.len() as int) =~= s.take(r.len() as int));
        assert forall|k: int| r.len() <= k < s.len() implies is_white_space(#[trigger] s[k]) by {
            if k < s.len() - 1 {
                assert(s[k] == t[k]);
            }
        }
    } else {
        assert(s.take(s.len() as int) =~= s);
    }
}

/// Trimming takes white space off both ends and nothing else: what is left
/// is one run of the text, all that stands before and after it is white
/// space, and it neither starts nor ends with white space.
pub proof fn lemma_trim_text(s: Seq<char>)
    ensures
        exists|i: int, j: int|
            {
                &&& 0 <= i <= j <= s.len()
                &&& trim_text(s) == #[trigger] s.subrange(i, j)
                &&& forall|k: int| 0 <= k < i ==> is_white_space(#[trigger] s[k])
                &&& forall|k: int| j <= k < s.len() ==> is_white_space(#[trigger] s[k])
            },
        trim_text(s).len() > 0 ==> !is_white_space(trim_text(s).first()) && !is_white_space(
            trim_text(s).last(),
        ),
{
    let a = trim_start_text(s);
    let r = trim_end_text(a);
    lemma_trim_start_text(s);
    lemma_trim_end_text(a);
    let i = s.len() - a.len();
    let j = i + r.len();
    assert(r =~= s.subrange(i, j));
    assert forall|k: int| j <= k < s.len() implies is_white_space(#[trigger] s[k]) by {
        assert(s[k] == a[k - i]);
    }
    if r.len() > 0 {
        assert(r.first() == a.first());
    }
}

/// `str::trim` of std: the slice of `s` that is left when the white space at
/// both ends is taken off, white space being the characters with the Unicode
/// property White_Space.
#[verifier::external_body]
fn trim(s: &str) -> (r: &str)
    ensures
        r@ == trim_text(s@),
{
    s.trim()
}

/// `Repository::statuses`, with options made by `StatusOptions::new` and set
/// from the query by `include_untracked`, `include_ignored`,
/// `include_unmodified` and `exclude_submodules`: for each entry the flags of
/// `StatusEntry::status`, each flag as the method of `Status` for it answers.
/// Nothing is claimed of the entries, which depend on the repository's
/// files. `StatusOptions::new` panics only where libgit2 refuses the version
/// of its own options.
#[verifier::external_body]
fn query_statuses(repo: &Repository, query: &StatusQuery) -> Result<Vec<ChangeFlags>, Error> {
    let mut opts = git2::StatusOptions::new();
    opts.include_untracked(query.untracked).include_ignored(query.ignored);
    opts.include_unmodified(query.unmodified).exclude_submodules(query.no_submodules);
    let list = repo.statuses(Some(&mut opts))?;
    Ok(list.iter().map(|e| e.status()).map(|s| ChangeFlags {
        conflict: s.is_conflicted(), index_new: s.is_index_new(),
        index_modified: s.is_index_modified(), index_deleted: s.is_index_deleted(),
        index_typechange: s.is_index_typechange(), index_renamed: s.is_index_renamed(),
        wt_new: s.is_wt_new(), wt_modified: s.is_wt_modified(),
        wt_deleted: s.is_wt_deleted(), wt_typechange: s.is_wt_typechange(),
        wt_renamed: s.is_wt_renamed(),
    }).collect())
}

/// The questions that a prompt asks of a repository. What git answers
/// depends on the repository's files, so the contracts say what holds of
/// every answer: each result is what [`RepoState::action`], [`label`] or
/// [`classify`] gives for some answer of git.
pub trait RepositoryExt {
    /// The tag of the operation that the repository is in the middle of:
    /// that of the state that git reports.
    fn action(&self) -> (r: Option<&str>)
        ensures
            exists|state: RepoState| tag_is(r, state),
    ;

    /// The label of the repository's position.
    ///
    /// A head that is unborn or not found counts as no head; any other
    /// failure of a lookup is handed on. In an interactive rebase the label
    /// names the branch that is rebased, see
    /// [`RepositoryExt::rebase_i_head_name`]; else, on a detached head, the
    /// short id of its commit; else the short name of the branch. The tag of
    /// the operation in progress follows.
    ///
    /// `head_name_file` is what reading `rebase-merge/head-name` under the
    /// repository's path gave: its content, or the message of the failure.
    /// It is looked at only in an interactive rebase, so only a failed read
    /// can come back as an unreadable side file, and then with its message.
    fn branch_name(&self, head_name_file: Result<String, String>) -> (r: Result<
        String,
        BackendError,
    >)
        ensures
            r matches Ok(text) ==> exists|state: RepoState, detached: bool, found: Option<String>|
                text@ == #[trigger] resolved_text(state, detached, found),
            r matches Err(BackendError::SideFileUnreadable(message)) ==> head_name_file == Err::<
                String,
                String,
            >(message),
    ;

    /// The status of the working copy: that of the entries that git reports
    /// when asked by [`status_query`], which leaves out what is untracked,
    /// ignored or unmodified, and submodules. It fails only where the query
    /// does.
    fn branch_status(&self) -> (r: Result<BranchStatus, BackendError>)
        ensures
            r matches Ok(status) ==> exists|entries: Seq<ChangeFlags>|
                status == #[trigger] classify_spec(entries),
            r matches Err(e) ==> e is QueryFailed,
    ;

    /// The short name of the branch that an interactive rebase works on,
    /// from what reading its head-name file gave: the short name of the
    /// reference whose full name is the content without the white space at
    /// both ends, see [`trim_text`]; the content itself where that reference
    /// has no short name. A
    /// failed read is an unreadable side file, with the message of the read;
    /// a read that succeeded fails only where the lookup of the reference
    /// does.
    fn rebase_i_head_name(&self, head_name_file: Result<String, String>) -> (r: Result<
        String,
        BackendError,
    >)
        ensures
            head_name_file matches Err(message) ==> r == Err::<String, BackendError>(
                BackendError::SideFileUnreadable(message),
            ),
            head_name_file is Ok ==> (r matches Err(e) ==> e is QueryFailed),
    ;

    /// The shortest unambiguous prefix of an object's id, as git gives it;
    /// none where it is not UTF-8. It fails only where a lookup does.
    fn to_short_oid(&self, oid: Oid) -> (r: Result<Option<String>, BackendError>)
        ensures
            r matches Err(e) ==> e is QueryFailed,
    ;
}

impl RepositoryExt for Repository {
    fn action(&self) -> (r: Option<&str>) {
        let state = repo_state(self);
        let tag = state.action();
        assert(tag_is(tag, state));
        tag
    }

    fn branch_name(&self, head_name_file: Result<String, String>) -> (r: Result<
        String,
        BackendError,
    >) {
        let head = match repo_head(self) {
            Ok(head) => Some(head),
            Err(e) => {
                if error_kind(&e).means_no_head() {
                    None
                } else {
                    return Err(BackendError::QueryFailed(e));
                }
            },
        };
        let detached = match repo_head_detached(self) {
            Ok(detached) => detached,
            Err(e) => return Err(BackendError::QueryFailed(e)),
        };
        let state = repo_state(self);
        let lookup = lookup_for(state, detached);
        let found = match lookup {
            Lookup::RebaseHeadName => match self.rebase_i_head_name(head_name_file) {
                Ok(name) => Some(name),
                Err(e) => return Err(e),
            },
            Lookup::ShortId => match &head {
                Some(head) => match reference_target(head) {
                    Some(oid) => match self.to_short_oid(oid) {
                        Ok(short) => short,
                        Err(e) => return Err(e),
                    },
                    None => None,
                },
                None => None,
            },
            Lookup::Shorthand => match &head {
                Some(head) => reference_shorthand(head),
                None => None,
            },
        };
        let text = label(position_of(lookup, found), state);
        assert(text@ == resolved_text(state, detached, found));
        Ok(text)
    }

    fn branch_status(&self) -> (r: Result<BranchStatus, BackendError>) {
        let query = status_query();
        let entries = match query_statuses(self, &query) {
            Ok(entries) => entries,
            Err(e) => return Err(BackendError::QueryFailed(e)),
        };
        let status = classify(entries.as_slice());
        assert(status == classify_spec(entries@));
        Ok(status)
    }

    fn rebase_i_head_name(&self, head_name_file: Result<String, String>) -> (r: Result<
        String,
        BackendError,
    >) {
        let refname = match head_name_file {
            Ok(content) => content,
            Err(message) => return Err(BackendError::SideFileUnreadable(message)),
        };
        match find_reference(self, trim(refname.as_str())) {
            Ok(reference) => Ok(name_or(reference_shorthand(&reference), refname.as_str())),
            Err(e) => Err(BackendError::QueryFailed(e)),
        }
    }

    fn to_short_oid(&self, oid: Oid) -> (r: Result<Option<String>, BackendError>) {
        let object = match find_object(self, oid) {
            Ok(object) => object,
            Err(e) => return Err(BackendError::QueryFailed(e)),
        };
        match object_short_id(&object) {
            Ok(id) => Ok(buf_text(&id)),
            Err(e) => Err(BackendError::QueryFailed(e)),
        }
    }
}

} // verus!
