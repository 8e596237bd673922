//! Projects: a named container of tickets with a list of members. The user
//! who creates a project is its owner; others join as plain members. The
//! owner cannot be removed and no user is a member twice.

use vstd::prelude::*;

use crate::ids::{ProjectId, UserId};
use crate::text::{is_blank, is_blank_text};

verus! {

/// The part a member plays in a project.
#[derive(Debug, Clone, Copy, PartialEq, Eq, Structural)]
pub enum ProjectRole {
    Owner,
    Member,
}

/// Why a change to a project was refused.
#[derive(Debug, Clone, Copy, PartialEq, Eq, Structural)]
pub enum ProjectError {
    EmptyName,
    DuplicatedMember { user_id: UserId },
    MemberNotFound { user_id: UserId },
    CannotRemoveOwner { user_id: UserId },
}

/// A member as the contracts see it: the user's number and the role.
pub struct MemberView {
    pub user_id: u64,
    pub role: ProjectRole,
}

/// A user's membership in a project.
#[derive(Debug, Clone, Copy, PartialEq, Eq, Structural)]
pub struct ProjectMember {
    user_id: UserId,
    role: ProjectRole,
}

impl View for ProjectMember {
    type V = MemberView;

    closed spec fn view(&self) -> MemberView {
        MemberView { user_id: self.user_id@, role: self.role }
    }
}

impl ProjectMember {
    pub fn user_id(&self) -> (user: UserId)
        ensures
            user@ == self@.user_id,
    {
        self.user_id
    }

    pub fn role(&self) -> (role: ProjectRole)
        ensures
            role == self@.role,
    {
        self.role
    }
}

/// Whether `user` is among the members.
pub open spec fn has_member(members: Seq<MemberView>, user: u64) -> bool {
    exists|i: int| 0 <= i < members.len() && #[trigger] members[i].user_id == user
}

/// Where `user` stands among the members (meaningful when it is one).
pub open spec fn member_index(members: Seq<MemberView>, user: u64) -> int {
    choose|i: int| 0 <= i < members.len() && #[trigger] members[i].user_id == user
}

/// The role of `user` among the members, if it is one.
pub open spec fn role_of(members: Seq<MemberView>, user: u64) -> Option<ProjectRole> {
    if has_member(members, user) {
        Some(members[member_index(members, user)].role)
    } else {
        None
    }
}

/// The members with the entry of `user` taken out, the others in their
/// order (meaningful when `user` is a member).
pub open spec fn without_member(members: Seq<MemberView>, user: u64) -> Seq<MemberView> {
    members.remove(member_index(members, user))
}

/// What every project keeps: the owner comes first, everyone after it is a
/// plain member, and no user appears twice.
pub open spec fn members_well_formed(members: Seq<MemberView>) -> bool {
    &&& members.len() >= 1
    &&& members[0].role == ProjectRole::Owner
    &&& forall|i: int| 1 <= i < members.len() ==> #[trigger] members[i].role == ProjectRole::Member
    &&& forall|i: int, j: int|
        0 <= i < members.len() && 0 <= j < members.len() && i != j ==> #[trigger] members[i].user_id
            != #[trigger] members[j].user_id
}

/// The abstract content of a project.
#[verifier::ext_equal]
pub struct ProjectView {
    pub id: u64,
    pub name: Seq<char>,
    pub description: Seq<char>,
    pub members: Seq<MemberView>,
}

/// What creating a project gives: the project with its owner as sole
/// member, or the refusal of a blank name.
pub open spec fn create_project(
    id: u64,
    owner: u64,
    name: Seq<char>,
    description: Seq<char>,
) -> Result<ProjectView, ProjectError> {
    if is_blank(name) {
        Err(ProjectError::EmptyName)
    } else {
        Ok(
            ProjectView {
                id,
                name,
                description,
                members: seq![MemberView { user_id: owner, role: ProjectRole::Owner }],
            },
        )
    }
}

/// What adding `user` gives: the project with `user` as a new plain member at
/// the end, or the refusal of a user who is already a member.
pub open spec fn add_project_member(p: ProjectView, user: UserId) -> Result<ProjectView, ProjectError> {
    if has_member(p.members, user@) {
        Err(ProjectError::DuplicatedMember { user_id: user })
    } else {
        Ok(
            ProjectView {
                members: p.members.push(MemberView { user_id: user@, role: ProjectRole::Member }),
                ..p
            },
        )
    }
}

/// What removing `user` gives: the project without `user`, or the refusal
/// of an unknown user or of the owner.
pub open spec fn remove_project_member(p: ProjectView, user: UserId) -> Result<ProjectView, ProjectError> {
    match role_of(p.members, user@) {
        None => Err(ProjectError::MemberNotFound { user_id: user }),
        Some(ProjectRole::Owner) => Err(ProjectError::CannotRemoveOwner { user_id: user }),
        Some(ProjectRole::Member) => Ok(
            ProjectView { members: without_member(p.members, user@), ..p },
        ),
    }
}

/// A project and its members.
#[derive(Debug)]
pub struct Project {
    id: ProjectId,
    name: String,
    description: String,
    members: Vec<ProjectMember>,
}

impl View for Project {
    type V = ProjectView;

    closed spec fn view(&self) -> ProjectView {
        ProjectView {
            id: self.id@,
            name: self.name@,
            description: self.description@,
            members: self.members@.map_values(|m: ProjectMember| m@),
        }
    }
}

impl Clone for Project {
    fn clone(&self) -> (copy: Self)
        ensures
            copy@ == self@,
    {
        proof {
            use_type_invariant(self);
        }
        let members = self.members.clone();
        assert(members@.map_values(|m: ProjectMember| m@) =~= self@.members);
        Project {
            id: self.id,
            name: self.name.clone(),
            description: self.description.clone(),
            members,
        }
    }
}

impl Project {
    /// Every project value keeps the member rules.
    #[verifier::type_invariant]
    pub open spec fn inv(self) -> bool {
        members_well_formed(self@.members)
    }

    /// Creates a project whose only member is its owner; a blank name is
    /// refused.
    pub fn new(id: ProjectId, owner_id: UserId, name: String, description: String) -> (result:
        Result<Self, ProjectError>)
        ensures
            match create_project(id@, owner_id@, name@, description@) {
                Ok(p) => result matches Ok(project) && project@ == p,
                Err(e) => result matches Err(err) && err == e,
            },
    {
        if is_blank_text(name.as_str()) {
            return Err(ProjectError::EmptyName);
        }
        let owner = ProjectMember { user_id: owner_id, role: ProjectRole::Owner };
        let mut members: Vec<ProjectMember> = Vec::new();
        members.push(owner);
        let project = Project { id, name, description, members };
        assert(project@.members =~= seq![MemberView { user_id: owner_id@, role: ProjectRole::Owner }]);
        Ok(project)
    }

    pub fn id(&self) -> (id: ProjectId)
        ensures
            id@ == self@.id,
    {
        self.id
    }

    pub fn name(&self) -> (name: &str)
        ensures
            name@ == self@.name,
    {
        self.name.as_str()
    }

    pub fn description(&self) -> (description: &str)
        ensures
            description@ == self@.description,
    {
        self.description.as_str()
    }

    pub fn members_count(&self) -> (count: usize)
        ensures
            count == self@.members.len(),
    {
        self.members.len()
    }

    /// The position of `user_id` among the members, if it is one.
    fn position_of(&self, user_id: UserId) -> (pos: Option<usize>)
        ensures
            match pos {
                Some(i) => i < self@.members.len() && self@.members[i as int].user_id == user_id@,
                None => !has_member(self@.members, user_id@),
            },
    {
        let mut i: usize = 0;
        while i < self.members.len()
            invariant
                i <= self.members@.len(),
                forall|k: int| 0 <= k < i ==> #[trigger] self@.members[k].user_id != user_id@,
            decreases self.members@.len() - i,
        {
            if self.members[i].user_id.get() == user_id.get() {
                return Some(i);
            }
            i = i + 1;
        }
        None
    }

    pub fn contains_member(&self, user_id: UserId) -> (contained: bool)
        ensures
            contained == has_member(self@.members, user_id@),
    {
        self.position_of(user_id).is_some()
    }

    pub fn member_role(&self, user_id: UserId) -> (role: Option<ProjectRole>)
        ensures
            role == role_of(self@.members, user_id@),
    {
        proof {
            use_type_invariant(self);
        }
        match self.position_of(user_id) {
            Some(i) => {
                assert(member_index(self@.members, user_id@) == i);
                Some(self.members[i].role)
            },
            None => None,
        }
    }

    /// Adds `user_id` as a plain member; a user who is already a member is
    /// refused and the project is left as it was.
    pub fn add_member(&mut self, user_id: UserId) -> (result: Result<(), ProjectError>)
        ensures
            match add_project_member(old(self)@, user_id) {
                Ok(p) => result == Ok::<(), ProjectError>(()) && final(self)@ == p,
                Err(e) => result == Err::<(), ProjectError>(e) && final(self)@ == old(self)@,
            },
    {
        if self.contains_member(user_id) {
            return Err(ProjectError::DuplicatedMember { user_id });
        }
        proof {
            use_type_invariant(&*self);
        }
        // The list is taken out while it grows; the owner alone stands in
        // for it meanwhile, which keeps the member rules.
        let ghost before = self@.members;
        let ghost added = MemberView { user_id: user_id@, role: ProjectRole::Member };
        let mut members = vec![self.members[0]];
        std::mem::swap(&mut members, &mut self.members);
        members.push(ProjectMember { user_id, role: ProjectRole::Member });
        assert(members@.map_values(|m: ProjectMember| m@) =~= before.push(added));
        assert(members_well_formed(before.push(added))) by {
            assert forall|i: int, j: int|
                0 <= i < before.len() + 1 && 0 <= j < before.len() + 1 && i != j implies
                #[trigger] before.push(added)[i].user_id != #[trigger] before.push(added)[j].user_id by {
                if i == before.len() {
                    assert(before[j].user_id != user_id@);
                } else if j == before.len() {
                    assert(before[i].user_id != user_id@);
                }
            }
        }
        self.members = members;
        Ok(())
    }

    /// Removes the plain member `user_id`; an unknown user or the owner is
    /// refused and the project is left as it was.
    pub fn remove_member(&mut self, user_id: UserId) -> (result: Result<(), ProjectError>)
        ensures
            match remove_project_member(old(self)@, user_id) {
                Ok(p) => result == Ok::<(), ProjectError>(()) && final(self)@ == p,
                Err(e) => result == Err::<(), ProjectError>(e) && final(self)@ == old(self)@,
            },
    {
        proof {
            use_type_invariant(&*self);
        }
        let pos = match self.position_of(user_id) {
            Some(i) => i,
            None => {
                return Err(ProjectError::MemberNotFound { user_id });
            },
        };
        let ghost before = self@.members;
        assert(member_index(before, user_id@) == pos);
        if self.members[pos].role == ProjectRole::Owner {
            return Err(ProjectError::CannotRemoveOwner { user_id });
        }
        // The list is taken out while it shrinks; the owner alone stands in
        // for it meanwhile, which keeps the member rules.
        let mut members = vec![self.members[0]];
        std::mem::swap(&mut members, &mut self.members);
        members.remove(pos);
        assert(members@.map_values(|m: ProjectMember| m@) =~= before.remove(pos as int));
        assert(members_well_formed(before.remove(pos as int))) by {
            assert(pos > 0);
            assert forall|i: int, j: int|
                0 <= i < before.len() - 1 && 0 <= j < before.len() - 1 && i != j implies
                #[trigger] before.remove(pos as int)[i].user_id
                    != #[trigger] before.remove(pos as int)[j].user_id by {
                let a = if i < pos { i } else { i + 1 };
                let b = if j < pos { j } else { j + 1 };
                assert(before[a].user_id != before[b].user_id);
            }
            assert forall|i: int| 1 <= i < before.len() - 1 implies
                #[trigger] before.remove(pos as int)[i].role == ProjectRole::Member by {
                let a = if i < pos { i } else { i + 1 };
                assert(before[a].role == ProjectRole::Member);
            }
        }
        self.members = members;
        Ok(())
    }
}


/// A new project holds exactly its owner, as owner, and keeps the member
/// rules.
pub proof fn lemma_new_project_holds_its_owner(
    id: u64,
    owner: u64,
    name: Seq<char>,
    description: Seq<char>,
)
    requires
        create_project(id, owner, name, description) is Ok,
    ensures
        ({
            let p = create_project(id, owner, name, description)->Ok_0;
            &&& members_well_formed(p.members)
            &&& p.members.len() == 1
            &&& role_of(p.members, owner) == Some(ProjectRole::Owner)
        }),
{
    let p = create_project(id, owner, name, description)->Ok_0;
    assert(p.members[0].user_id == owner);
    assert(member_index(p.members, owner) == 0);
}

/// The owner of a project is always one of its members, with the owner
/// role.
pub proof fn lemma_owner_is_a_member(p: ProjectView)
    requires
        members_well_formed(p.members),
    ensures
        role_of(p.members, p.members[0].user_id) == Some(ProjectRole::Owner),
{
    let owner = p.members[0].user_id;
    assert(p.members[0].user_id == owner);
    let k = member_index(p.members, owner);
    assert(k == 0);
}

/// Adding a member keeps the member rules, gives the user the member role,
/// and grows the project by one.
pub proof fn lemma_add_member_keeps_the_rules(p: ProjectView, user: UserId)
    requires
        members_well_formed(p.members),
        add_project_member(p, user) is Ok,
    ensures
        ({
            let q = add_project_member(p, user)->Ok_0;
            &&& members_well_formed(q.members)
            &&& q.members.len() == p.members.len() + 1
            &&& role_of(q.members, user@) == Some(ProjectRole::Member)
            &&& forall|v: u64| v != user@ ==> (has_member(q.members, v) <==> has_member(p.members, v))
        }),
{
    let q = add_project_member(p, user)->Ok_0;
    let n = p.members.len();
    assert(q.members[n as int].user_id == user@);
    assert forall|i: int, j: int|
        0 <= i < n + 1 && 0 <= j < n + 1 && i != j implies #[trigger] q.members[i].user_id
        != #[trigger] q.members[j].user_id by {
        if i == n {
            assert(p.members[j].user_id != user@);
        } else if j == n {
            assert(p.members[i].user_id != user@);
        } else {
            assert(p.members[i].user_id != p.members[j].user_id);
        }
    }
    assert(member_index(q.members, user@) == n);
    assert forall|v: u64| v != user@ implies (has_member(q.members, v) <==> has_member(p.members, v)) by {
        if has_member(p.members, v) {
            let i = choose|i: int| 0 <= i < n && #[trigger] p.members[i].user_id == v;
            assert(q.members[i].user_id == v);
        }
        if has_member(q.members, v) {
            let i = choose|i: int| 0 <= i < n + 1 && #[trigger] q.members[i].user_id == v;
            assert(p.members[i].user_id == v);
        }
    }
}

/// Removing a member keeps the member rules, takes exactly that user out,
/// and shrinks the project by one.
pub proof fn lemma_remove_member_keeps_the_rules(p: ProjectView, user: UserId)
    requires
        members_well_formed(p.members),
        remove_project_member(p, user) is Ok,
    ensures
        ({
            let q = remove_project_member(p, user)->Ok_0;
            &&& members_well_formed(q.members)
            &&& q.members.len() == p.members.len() - 1
            &&& !has_member(q.members, user@)
            &&& forall|v: u64| v != user@ ==> (has_member(q.members, v) <==> has_member(p.members, v))
        }),
{
    let q = remove_project_member(p, user)->Ok_0;
    let n = p.members.len();
    let pos = member_index(p.members, user@);
    assert(pos > 0);
    assert forall|i: int, j: int|
        0 <= i < n - 1 && 0 <= j < n - 1 && i != j implies #[trigger] q.members[i].user_id
        != #[trigger] q.members[j].user_id by {
        let a = if i < pos { i } else { i + 1 };
        let b = if j < pos { j } else { j + 1 };
        assert(p.members[a].user_id != p.members[b].user_id);
    }
    assert forall|i: int| 1 <= i < n - 1 implies #[trigger] q.members[i].role == ProjectRole::Member by {
        let a = if i < pos { i } else { i + 1 };
        assert(p.members[a].role == ProjectRole::Member);
    }
    if has_member(q.members, user@) {
        let i = choose|i: int| 0 <= i < n - 1 && #[trigger] q.members[i].user_id == user@;
        let a = if i < pos { i } else { i + 1 };
        assert(p.members[a].user_id == user@);
        assert(p.members[pos].user_id == user@);
    }
    assert forall|v: u64| v != user@ implies (has_member(q.members, v) <==> has_member(p.members, v)) by {
        if has_member(p.members, v) {
            let i = choose|i: int| 0 <= i < n && #[trigger] p.members[i].user_id == v;
            assert(i != pos);
            let a = if i < pos { i } else { i - 1 };
            assert(q.members[a].user_id == v);
        }
        if has_member(q.members, v) {
            let i = choose|i: int| 0 <= i < n - 1 && #[trigger] q.members[i].user_id == v;
            let a = if i < pos { i } else { i + 1 };
            assert(p.members[a].user_id == v);
        }
    }
}

/// The owner cannot be removed from a project.
pub proof fn lemma_owner_cannot_be_removed(p: ProjectView, owner: UserId)
    requires
        members_well_formed(p.members),
        owner@ == p.members[0].user_id,
    ensures
        remove_project_member(p, owner) == Err::<ProjectView, ProjectError>(
            ProjectError::CannotRemoveOwner { user_id: owner },
        ),
{
    lemma_owner_is_a_member(p);
}

/// A user who was just added is refused a second time.
pub proof fn lemma_member_cannot_be_added_twice(p: ProjectView, user: UserId)
    requires
        add_project_member(p, user) is Ok,
    ensures
        add_project_member(add_project_member(p, user)->Ok_0, user)
            == Err::<ProjectView, ProjectError>(ProjectError::DuplicatedMember { user_id: user }),
{
    let q = add_project_member(p, user)->Ok_0;
    assert(q.members[p.members.len() as int].user_id == user@);
}

/// Removing a member that was just added gives back the project as it was.
pub proof fn lemma_remove_undoes_add(p: ProjectView, user: UserId)
    requires
        members_well_formed(p.members),
        add_project_member(p, user) is Ok,
    ensures
        remove_project_member(add_project_member(p, user)->Ok_0, user) == Ok::<ProjectView, ProjectError>(p),
{
    lemma_add_member_keeps_the_rules(p, user);
    let q = add_project_member(p, user)->Ok_0;
    assert(member_index(q.members, user@) == p.members.len());
    assert(without_member(q.members, user@) =~= p.members);
}

/// One change to the members of a project.
#[derive(Debug, Clone, Copy, PartialEq, Eq, Structural)]
pub enum MemberChange {
    Add(UserId),
    Remove(UserId),
}

/// The project after `change` is asked for; a refused change leaves it as
/// it was.
pub open spec fn apply_member_change(p: ProjectView, change: MemberChange) -> ProjectView {
    let outcome = match change {
        MemberChange::Add(user) => add_project_member(p, user),
        MemberChange::Remove(user) => remove_project_member(p, user),
    };
    match outcome {
        Ok(q) => q,
        Err(_) => p,
    }
}

/// The project after `changes` are asked for, in order.
pub open spec fn apply_member_changes(p: ProjectView, changes: Seq<MemberChange>) -> ProjectView
    decreases changes.len(),
{
    if changes.len() == 0 {
        p
    } else {
        apply_member_change(apply_member_changes(p, changes.drop_last()), changes.last())
    }
}

/// A project has exactly one owner: the user listed first.
pub proof fn lemma_single_owner(p: ProjectView, user: u64)
    requires
        members_well_formed(p.members),
    ensures
        (role_of(p.members, user) == Some(ProjectRole::Owner)) <==> user == p.members[0].user_id,
{
    lemma_owner_is_a_member(p);
    if role_of(p.members, user) == Some(ProjectRole::Owner) {
        let k = member_index(p.members, user);
        assert(k == 0);
    }
}

/// An accepted addition or removal keeps the first member, the owner, in
/// its place.
pub proof fn lemma_owner_stays_first(p: ProjectView, change: MemberChange)
    requires
        members_well_formed(p.members),
    ensures
        members_well_formed(apply_member_change(p, change).members),
        apply_member_change(p, change).members[0] == p.members[0],
{
    match change {
        MemberChange::Add(user) => {
            if add_project_member(p, user) is Ok {
                lemma_add_member_keeps_the_rules(p, user);
            }
        },
        MemberChange::Remove(user) => {
            if remove_project_member(p, user) is Ok {
                lemma_remove_member_keeps_the_rules(p, user);
                let pos = member_index(p.members, user@);
                assert(pos > 0);
            }
        },
    }
}

/// Through any sequence of additions and removals, accepted or refused, the
/// creating owner stays the first member and the only owner.
pub proof fn lemma_owner_stays_owner(p: ProjectView, changes: Seq<MemberChange>)
    requires
        members_well_formed(p.members),
    ensures
        members_well_formed(apply_member_changes(p, changes).members),
        apply_member_changes(p, changes).members[0] == p.members[0],
        forall|user: u64|
            (role_of(apply_member_changes(p, changes).members, user) == Some(ProjectRole::Owner))
                <==> user == p.members[0].user_id,
    decreases changes.len(),
{
    if changes.len() > 0 {
        lemma_owner_stays_owner(p, changes.drop_last());
        lemma_owner_stays_first(apply_member_changes(p, changes.drop_last()), changes.last());
    }
    let q = apply_member_changes(p, changes);
    assert forall|user: u64|
        (role_of(q.members, user) == Some(ProjectRole::Owner)) <==> user == p.members[0].user_id by {
        lemma_single_owner(q, user);
    }
}

/// Adding a user is refused exactly when the user is already a member; an
/// accepted addition makes the user a plain member, keeps everyone else and
/// grows the project by one.
pub proof fn lemma_add_member_refused_only_for_members(p: ProjectView, user: UserId)
    requires
        members_well_formed(p.members),
    ensures
        (add_project_member(p, user) is Ok) <==> !has_member(p.members, user@),
        add_project_member(p, user) is Err ==> add_project_member(p, user)
            == Err::<ProjectView, ProjectError>(ProjectError::DuplicatedMember { user_id: user }),
        add_project_member(p, user) matches Ok(q) ==> {
            &&& q.id == p.id && q.name == p.name && q.description == p.description
            &&& q.members.len() == p.members.len() + 1
            &&& has_member(q.members, user@)
            &&& role_of(q.members, user@) == Some(ProjectRole::Member)
            &&& forall|i: int| 0 <= i < p.members.len() ==> #[trigger] q.members[i] == p.members[i]
        },
{
    if add_project_member(p, user) is Ok {
        lemma_add_member_keeps_the_rules(p, user);
        let q = add_project_member(p, user)->Ok_0;
        assert(q.members[p.members.len() as int].user_id == user@);
    }
}

/// Removing a user succeeds exactly when the user is a plain member: an
/// unknown user is refused as not found and the owner as the owner. An
/// accepted removal takes out only that user and shrinks the project by
/// one.
pub proof fn lemma_remove_member_refused_only_for_owner_or_stranger(p: ProjectView, user: UserId)
    requires
        members_well_formed(p.members),
    ensures
        (remove_project_member(p, user) is Ok) <==> role_of(p.members, user@) == Some(
            ProjectRole::Member,
        ),
        (remove_project_member(p, user) is Ok) <==> (has_member(p.members, user@) && user@
            != p.members[0].user_id),
        !has_member(p.members, user@) ==> remove_project_member(p, user)
            == Err::<ProjectView, ProjectError>(ProjectError::MemberNotFound { user_id: user }),
        user@ == p.members[0].user_id ==> remove_project_member(p, user)
            == Err::<ProjectView, ProjectError>(ProjectError::CannotRemoveOwner { user_id: user }),
        remove_project_member(p, user) matches Ok(q) ==> {
            &&& q.id == p.id && q.name == p.name && q.description == p.description
            &&& q.members.len() == p.members.len() - 1
            &&& !has_member(q.members, user@)
            &&& forall|v: u64| v != user@ ==> (has_member(q.members, v) <==> has_member(p.members, v))
        },
{
    lemma_single_owner(p, user@);
    lemma_owner_is_a_member(p);
    if has_member(p.members, user@) {
        let k = member_index(p.members, user@);
        if k > 0 {
            assert(p.members[k].role == ProjectRole::Member);
        }
    }
    if remove_project_member(p, user) is Ok {
        lemma_remove_member_keeps_the_rules(p, user);
    }
}

/// Creating a project is refused exactly for a blank name; an accepted
/// creation keeps the id, name and description given and makes the creator
/// the one and only member, as owner.
pub proof fn lemma_create_refused_only_when_blank(
    id: u64,
    owner: u64,
    name: Seq<char>,
    description: Seq<char>,
)
    ensures
        (create_project(id, owner, name, description) is Ok) <==> !is_blank(name),
        create_project(id, owner, name, description) is Err ==> create_project(
            id,
            owner,
            name,
            description,
        ) == Err::<ProjectView, ProjectError>(ProjectError::EmptyName),
        create_project(id, owner, name, description) matches Ok(p) ==> {
            &&& p.id == id && p.name == name && p.description == description
            &&& p.members.len() == 1
            &&& p.members[0].user_id == owner
            &&& p.members[0].role == ProjectRole::Owner
            &&& forall|u: u64| has_member(p.members, u) <==> u == owner
        },
{
    if create_project(id, owner, name, description) is Ok {
        let p = create_project(id, owner, name, description)->Ok_0;
        assert(p.members[0].user_id == owner);
    }
}

} // verus!
