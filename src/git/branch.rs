//! Listing, reading, checking out and deleting local branches, through git2.
//! Each git2 call stands behind a small wrapper; what the wrappers return
//! depends on the repository on disk, so their contracts promise nothing of
//! it, and the functions here state which kinds of error each can return.
use vstd::prelude::*;
use git2::{Branch, BranchType, Error, Object, Oid, Reference, Repository};

verus! {

#[verifier::external_type_specification]
#[verifier::external_body]
pub struct ExRepository(git2::Repository);

#[verifier::external_type_specification]
#[verifier::external_body]
pub struct ExError(git2::Error);

#[verifier::external_type_specification]
#[verifier::external_body]
pub struct ExReference<'repo>(git2::Reference<'repo>);

#[verifier::external_type_specification]
#[verifier::external_body]
pub struct ExBranch<'repo>(git2::Branch<'repo>);

#[verifier::external_type_specification]
#[verifier::external_body]
pub struct ExObject<'repo>(git2::Object<'repo>);

#[verifier::external_type_specification]
#[verifier::external_body]
pub struct ExOid(git2::Oid);

#[verifier::external_type_specification]
#[verifier::external_body]
pub struct ExBranchType(git2::BranchType);

/// What went wrong, named after the step of the operation that failed.
#[derive(Clone, Copy, Debug, PartialEq, Eq, Structural)]
pub enum GitErrorKind {
    /// The path could not be opened as a repository.
    NotARepository,
    /// HEAD could not be resolved to a short, readable name.
    DetachedOrUnnamedHead,
    /// The local branches could not be enumerated.
    ListingFailed,
    /// The name does not resolve to a single object.
    AmbiguousOrUnknownRevision,
    /// The step that updates the working tree failed; local changes that
    /// would be overwritten are the usual cause.
    CheckoutConflict,
    /// The working tree was updated but HEAD could not be repointed.
    HeadUpdateFailed,
    /// No local branch has that name.
    BranchNotFound,
    /// The step that removes the branch failed; the branch being the
    /// checked-out one is the usual cause.
    CannotDeleteCheckedOutBranch,
}

/// A failed Git operation: the step that failed and git2's own error.
#[derive(Debug)]
pub struct GitError {
    pub kind: GitErrorKind,
    pub cause: Error,
}

impl GitError {
    pub fn new(kind: GitErrorKind, cause: Error) -> (r: GitError)
        ensures
            r.kind == kind,
            r.cause == cause,
    {
        GitError { kind, cause }
    }

    /// git2's message for the failure.
    pub fn message(&self) -> (r: String) {
        error_message(&self.cause)
    }
}

/// Relies on `git2::Repository::open`: opens the repository at `path`.
#[verifier::external_body]
fn open_repository(path: &str) -> (r: Result<Repository, Error>) {
    Repository::open(path)
}

/// Relies on `git2::Repository::head`: the reference that HEAD resolves to.
#[verifier::external_body]
fn repository_head<'repo>(repo: &'repo Repository) -> (r: Result<Reference<'repo>, Error>) {
    repo.head()
}

/// Relies on `git2::Reference::shorthand`: the human-readable short name.
#[verifier::external_body]
fn reference_shorthand(reference: &Reference) -> (r: Result<String, Error>) {
    Ok(reference.shorthand()?.to_string())
}

/// Relies on `git2::Reference::name`: the full name of the reference.
#[verifier::external_body]
fn reference_name(reference: &Reference) -> (r: Result<String, Error>) {
    Ok(reference.name()?.to_string())
}

/// Relies on `git2::Repository::branches`, asked for local branches only,
/// with its entries gathered in enumeration order.
#[verifier::external_body]
fn local_branches<'repo>(repo: &'repo Repository) -> (r: Result<
    Vec<Result<(Branch<'repo>, BranchType), Error>>,
    Error,
>) {
    Ok(repo.branches(Some(BranchType::Local))?.collect())
}

/// Relies on `git2::Branch::name`: `Ok(None)` when the name is not UTF-8.
#[verifier::external_body]
fn branch_name(branch: &Branch) -> (r: Result<Option<String>, Error>) {
    Ok(branch.name()?.map(String::from))
}

/// Relies on `git2::Repository::revparse_ext`: the object a revision names,
/// and the reference it went through, if any.
#[verifier::external_body]
fn revparse_ext<'repo>(repo: &'repo Repository, spec: &str) -> (r: Result<
    (Object<'repo>, Option<Reference<'repo>>),
    Error,
>) {
    repo.revparse_ext(spec)
}

/// Relies on `git2::Repository::checkout_tree`, with default options: updates
/// the index and the working tree to the tree of `treeish`.
#[verifier::external_body]
fn checkout_tree(repo: &Repository, treeish: &Object) -> (r: Result<(), Error>) {
    repo.checkout_tree(treeish, None)
}

/// Relies on `git2::Repository::set_head`: points HEAD at the reference `refname`.
#[verifier::external_body]
fn set_head(repo: &Repository, refname: &str) -> (r: Result<(), Error>) {
    repo.set_head(refname)
}

/// Relies on `git2::Object::id`: the object's id.
#[verifier::external_body]
fn object_id(object: &Object) -> (r: Oid) {
    object.id()
}

/// Relies on `git2::Repository::set_head_detached`: points HEAD at a commit.
#[verifier::external_body]
fn set_head_detached(repo: &Repository, commit: Oid) -> (r: Result<(), Error>) {
    repo.set_head_detached(commit)
}

/// Relies on `git2::Repository::find_branch`, asked for a local branch.
#[verifier::external_body]
fn find_local_branch<'repo>(repo: &'repo Repository, name: &str) -> (r: Result<Branch<'repo>, Error>) {
    repo.find_branch(name, BranchType::Local)
}

/// Relies on `git2::Branch::delete`: removes the branch reference.
#[verifier::external_body]
fn delete_reference(branch: &mut Branch) -> (r: Result<(), Error>) {
    branch.delete()
}

/// Relies on `git2::Error::message`: the error's text.
#[verifier::external_body]
fn error_message(error: &Error) -> (r: String) {
    error.message().to_string()
}

/// The names that are present, in order; absent ones are dropped.
pub open spec fn present_names(names: Seq<Option<String>>) -> Seq<String>
    decreases names.len(),
{
    if names.len() == 0 {
        Seq::empty()
    } else {
        let rest = present_names(names.drop_last());
        match names.last() {
            Some(name) => rest.push(name),
            None => rest,
        }
    }
}

/// The branch of an enumerated entry, or `None` where resolving it failed.
pub fn valid_branch<'a, 'repo>(entry: &'a Result<(Branch<'repo>, BranchType), Error>) -> (r: Option<
    &'a Branch<'repo>,
>)
    ensures
        r is Some <==> entry is Ok,
        r matches Some(b) ==> entry matches Ok(pair) && *b == pair.0,
{
    match entry {
        Ok((branch, _)) => Some(branch),
        Err(_) => None,
    }
}

/// The name from a name lookup: present only when the lookup succeeded and
/// the name is UTF-8.
pub fn name_from_lookup(found: Result<Option<String>, Error>) -> (r: Option<String>)
    ensures
        found matches Ok(Some(n)) ==> r == Some(n),
        !(found matches Ok(Some(_))) ==> r is None,
{
    match found {
        Ok(Some(name)) => Some(name),
        _ => None,
    }
}

/// The branch's name, or `None` where it cannot be read or is not UTF-8.
pub fn map_branch_to_name_string(branch: &Branch) -> (r: Option<String>) {
    name_from_lookup(branch_name(branch))
}

/// How HEAD is to be repointed after a checkout.
#[derive(Debug, PartialEq, Eq)]
pub enum HeadMove {
    /// Make HEAD a symbolic reference to the reference of this full name.
    Attach(String),
    /// Detach HEAD at the checked-out commit.
    Detach,
}

/// A revision that went through a reference attaches HEAD to it; any other
/// revision detaches HEAD.
pub fn head_move(reference: Option<String>) -> (r: HeadMove)
    ensures
        reference matches Some(n) ==> r == HeadMove::Attach(n),
        reference is None ==> r == HeadMove::Detach,
{
    match reference {
        Some(name) => HeadMove::Attach(name),
        None => HeadMove::Detach,
    }
}

/// Keeps the names that could be read, in their order: an entry that failed
/// to resolve is skipped rather than failing the whole listing.
pub fn keep_named(names: Vec<Option<String>>) -> (r: Vec<String>)
    ensures
        r@ == present_names(names@),
{
    let mut kept: Vec<String> = Vec::new();
    let mut i: usize = 0;
    while i < names.len()
        invariant
            i <= names@.len(),
            kept@ == present_names(names@.subrange(0, i as int)),
        decreases names@.len() - i,
    {
        assert(names@.subrange(0, i + 1).drop_last() == names@.subrange(0, i as int));
        match &names[i] {
            Some(name) => kept.push(name.clone()),
            None => {},
        }
        i += 1;
    }
    assert(names@.subrange(0, names@.len() as int) == names@);
    kept
}

/// The short name of the branch that HEAD points to.
pub fn get_current_branch(repo_name: &str) -> (r: Result<String, GitError>)
    ensures
        r matches Err(e) ==> e.kind == GitErrorKind::NotARepository || e.kind
            == GitErrorKind::DetachedOrUnnamedHead,
{
    let repo = match open_repository(repo_name) {
        Ok(repo) => repo,
        Err(e) => return Err(GitError::new(GitErrorKind::NotARepository, e)),
    };
    let head = match repository_head(&repo) {
        Ok(head) => head,
        Err(e) => return Err(GitError::new(GitErrorKind::DetachedOrUnnamedHead, e)),
    };
    match reference_shorthand(&head) {
        Ok(name) => Ok(name),
        Err(e) => Err(GitError::new(GitErrorKind::DetachedOrUnnamedHead, e)),
    }
}

/// The names of the local branches, in enumeration order; entries that fail
/// to resolve or whose name cannot be read are skipped.
pub fn list_branches(repo_name: &str) -> (r: Result<Vec<String>, GitError>)
    ensures
        r matches Err(e) ==> e.kind == GitErrorKind::NotARepository || e.kind
            == GitErrorKind::ListingFailed,
{
    let repo = match open_repository(repo_name) {
        Ok(repo) => repo,
        Err(e) => return Err(GitError::new(GitErrorKind::NotARepository, e)),
    };
    let entries = match local_branches(&repo) {
        Ok(entries) => entries,
        Err(e) => return Err(GitError::new(GitErrorKind::ListingFailed, e)),
    };
    Ok(names_of_entries(&entries))
}

/// The names of enumerated entries, in order: an entry that failed to resolve,
/// or whose name cannot be read, is skipped and does not stop the others.
pub fn names_of_entries<'repo>(entries: &Vec<Result<(Branch<'repo>, BranchType), Error>>) -> (r: Vec<String>)
    ensures
        exists|names: Seq<Option<String>>|
            {
                &&& names.len() == entries@.len()
                &&& forall|j: int| 0 <= j < names.len() ==> (entries@[j] is Err ==> names[j] is None)
                &&& r@ == present_names(names)
            },
{
    let mut names: Vec<Option<String>> = Vec::new();
    let mut i: usize = 0;
    while i < entries.len()
        invariant
            i <= entries@.len(),
            names@.len() == i,
            forall|j: int| 0 <= j < i ==> (entries@[j] is Err ==> names@[j] is None),
        decreases entries@.len() - i,
    {
        let name = match valid_branch(&entries[i]) {
            Some(branch) => map_branch_to_name_string(branch),
            None => None,
        };
        names.push(name);
        i += 1;
    }
    assert(names@.len() == entries@.len());
    keep_named(names)
}

/// Checks out `branch_name`: updates the working tree to it, then points
/// HEAD at the reference it names, or detaches HEAD at its commit when it
/// names no reference.
pub fn checkout_branch(repo_name: &str, branch_name: &str) -> (r: Result<(), GitError>)
    ensures
        r matches Err(e) ==> e.kind == GitErrorKind::NotARepository || e.kind
            == GitErrorKind::AmbiguousOrUnknownRevision || e.kind == GitErrorKind::CheckoutConflict
            || e.kind == GitErrorKind::HeadUpdateFailed,
{
    let repo = match open_repository(repo_name) {
        Ok(repo) => repo,
        Err(e) => return Err(GitError::new(GitErrorKind::NotARepository, e)),
    };
    let (object, reference) = match revparse_ext(&repo, branch_name) {
        Ok(found) => found,
        Err(e) => return Err(GitError::new(GitErrorKind::AmbiguousOrUnknownRevision, e)),
    };
    match checkout_tree(&repo, &object) {
        Ok(()) => {},
        Err(e) => return Err(GitError::new(GitErrorKind::CheckoutConflict, e)),
    }
    let target = match reference {
        Some(gref) => match reference_name(&gref) {
            Ok(name) => Some(name),
            Err(e) => return Err(GitError::new(GitErrorKind::HeadUpdateFailed, e)),
        },
        None => None,
    };
    let moved = match head_move(target) {
        HeadMove::Attach(name) => set_head(&repo, name.as_str()),
        HeadMove::Detach => set_head_detached(&repo, object_id(&object)),
    };
    match moved {
        Ok(()) => Ok(()),
        Err(e) => Err(GitError::new(GitErrorKind::HeadUpdateFailed, e)),
    }
}

/// Removes the local branch `branch_name`.
pub fn delete_branch(repo_name: &str, branch_name: &str) -> (r: Result<(), GitError>)
    ensures
        r matches Err(e) ==> e.kind == GitErrorKind::NotARepository || e.kind
            == GitErrorKind::BranchNotFound || e.kind == GitErrorKind::CannotDeleteCheckedOutBranch,
{
    let repo = match open_repository(repo_name) {
        Ok(repo) => repo,
        Err(e) => return Err(GitError::new(GitErrorKind::NotARepository, e)),
    };
    let mut branch = match find_local_branch(&repo, branch_name) {
        Ok(branch) => branch,
        Err(e) => return Err(GitError::new(GitErrorKind::BranchNotFound, e)),
    };
    match delete_reference(&mut branch) {
        Ok(()) => Ok(()),
        Err(e) => Err(GitError::new(GitErrorKind::CannotDeleteCheckedOutBranch, e)),
    }
}

} // verus!
