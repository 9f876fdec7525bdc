use vstd::prelude::*;

use crate::dup::Dup;
use crate::entity::Entity;
use crate::mongo::MongoEntity;
use crate::singleton_entity::Singleton;
use crate::updatable::Updatable;

verus! {

/// A keyed record with an integer identity. Its `UpdatedArticle` patch
/// carries every non-identity field as an optional replacement.
#[derive(Debug)]
pub struct Article {
    pub id: i32,
    pub title: String,
    pub body: String,
}

/// The partial-update shape of [`Article`]: `None` leaves a field
/// unchanged.
#[derive(Debug)]
pub struct UpdatedArticle {
    pub title: Option<String>,
    pub body: Option<String>,
}

impl Dup for Article {
    fn dup(&self) -> (r: Self)
        ensures
            r == *self,
    {
        Article { id: self.id, title: self.title.dup(), body: self.body.dup() }
    }
}

impl Dup for UpdatedArticle {
    fn dup(&self) -> (r: Self)
        ensures
            r == *self,
    {
        UpdatedArticle { title: self.title.dup(), body: self.body.dup() }
    }
}

impl Default for UpdatedArticle {
    /// The patch that changes nothing.
    fn default() -> (r: Self)
        ensures
            r == (UpdatedArticle { title: Option::None, body: Option::None }),
    {
        UpdatedArticle { title: Option::None, body: Option::None }
    }
}

impl UpdatedArticle {
    /// Set the title carried by this patch.
    pub fn title(self, val: String) -> (r: Self)
        ensures
            r == (UpdatedArticle { title: Option::Some(val), body: self.body }),
    {
        UpdatedArticle { title: Option::Some(val), body: self.body }
    }

    /// Set the body carried by this patch.
    pub fn body(self, val: String) -> (r: Self)
        ensures
            r == (UpdatedArticle { title: self.title, body: Option::Some(val) }),
    {
        UpdatedArticle { title: self.title, body: Option::Some(val) }
    }
}

impl PartialEq for Article {
    fn eq(&self, other: &Self) -> (r: bool) {
        self.id == other.id
    }
}

impl vstd::std_specs::cmp::PartialEqSpecImpl for Article {
    open spec fn obeys_eq_spec() -> bool {
        true
    }

    open spec fn eq_spec(&self, other: &Self) -> bool {
        self.id == other.id
    }
}

impl Updatable<UpdatedArticle> for Article {
    open spec fn applied(self, with: UpdatedArticle) -> Self {
        Article {
            id: self.id,
            title: self.title.applied(with.title),
            body: self.body.applied(with.body),
        }
    }

    fn update(&mut self, with: &UpdatedArticle) {
        self.title.update(&with.title);
        self.body.update(&with.body);
    }

    proof fn lemma_applied_twice(s: Self, with: UpdatedArticle) {
    }
}

impl Entity for Article {
    type Update = UpdatedArticle;

    type ID = i32;

    open spec fn id(&self) -> i32 {
        self.id
    }

    open spec fn full_update(self) -> UpdatedArticle {
        UpdatedArticle { title: Option::Some(self.title), body: Option::Some(self.body) }
    }

    fn get_id(&self) -> (id: i32) {
        let r = self.id;
        proof {
            assert(r@ == r);
        }
        r
    }

    fn into_update(self) -> (u: UpdatedArticle) {
        UpdatedArticle { title: Option::Some(self.title), body: Option::Some(self.body) }
    }

    proof fn lemma_applied_preserves_id(e: Self, with: UpdatedArticle) {
    }

    proof fn lemma_full_update_round_trip(base: Self, e: Self) {
    }
}

/// A plain patchable value without an identity of its own.
#[derive(Debug)]
pub struct Person {
    pub first_name: String,
    pub last_name: String,
}

/// The partial-update shape of [`Person`].
#[derive(Debug)]
pub struct UpdatedPerson {
    pub first_name: Option<String>,
    pub last_name: Option<String>,
}

impl Dup for Person {
    fn dup(&self) -> (r: Self)
        ensures
            r == *self,
    {
        Person { first_name: self.first_name.dup(), last_name: self.last_name.dup() }
    }
}

impl Dup for UpdatedPerson {
    fn dup(&self) -> (r: Self)
        ensures
            r == *self,
    {
        UpdatedPerson { first_name: self.first_name.dup(), last_name: self.last_name.dup() }
    }
}

impl Default for UpdatedPerson {
    /// The patch that changes nothing.
    fn default() -> (r: Self)
        ensures
            r == (UpdatedPerson { first_name: Option::None, last_name: Option::None }),
    {
        UpdatedPerson { first_name: Option::None, last_name: Option::None }
    }
}

impl UpdatedPerson {
    /// Set the first name carried by this patch.
    pub fn first_name(self, val: String) -> (r: Self)
        ensures
            r == (UpdatedPerson { first_name: Option::Some(val), last_name: self.last_name }),
    {
        UpdatedPerson { first_name: Option::Some(val), last_name: self.last_name }
    }

    /// Set the last name carried by this patch.
    pub fn last_name(self, val: String) -> (r: Self)
        ensures
            r == (UpdatedPerson { first_name: self.first_name, last_name: Option::Some(val) }),
    {
        UpdatedPerson { first_name: self.first_name, last_name: Option::Some(val) }
    }
}

impl Updatable<UpdatedPerson> for Person {
    open spec fn applied(self, with: UpdatedPerson) -> Self {
        Person {
            first_name: self.first_name.applied(with.first_name),
            last_name: self.last_name.applied(with.last_name),
        }
    }

    fn update(&mut self, with: &UpdatedPerson) {
        self.first_name.update(&with.first_name);
        self.last_name.update(&with.last_name);
    }

    proof fn lemma_applied_twice(s: Self, with: UpdatedPerson) {
    }
}

/// A keyed record with a string identity, stored by the external backend
/// under the `employees` collection.
#[derive(Debug)]
pub struct Employee {
    pub name: String,
    pub age: u8,
    pub children: u8,
}

/// The partial-update shape of [`Employee`].
#[derive(Debug)]
pub struct UpdatedEmployee {
    pub age: Option<u8>,
    pub children: Option<u8>,
}

impl Dup for Employee {
    fn dup(&self) -> (r: Self)
        ensures
            r == *self,
    {
        Employee { name: self.name.dup(), age: self.age, children: self.children }
    }
}

impl Dup for UpdatedEmployee {
    fn dup(&self) -> (r: Self)
        ensures
            r == *self,
    {
        UpdatedEmployee { age: self.age.dup(), children: self.children.dup() }
    }
}

impl Default for UpdatedEmployee {
    /// The patch that changes nothing.
    fn default() -> (r: Self)
        ensures
            r == (UpdatedEmployee { age: Option::None, children: Option::None }),
    {
        UpdatedEmployee { age: Option::None, children: Option::None }
    }
}

impl UpdatedEmployee {
    /// Set the age carried by this patch.
    pub fn age(self, val: u8) -> (r: Self)
        ensures
            r == (UpdatedEmployee { age: Option::Some(val), children: self.children }),
    {
        UpdatedEmployee { age: Option::Some(val), children: self.children }
    }

    /// Set the number of children carried by this patch.
    pub fn children(self, val: u8) -> (r: Self)
        ensures
            r == (UpdatedEmployee { age: self.age, children: Option::Some(val) }),
    {
        UpdatedEmployee { age: self.age, children: Option::Some(val) }
    }
}

impl PartialEq for Employee {
    fn eq(&self, other: &Self) -> (r: bool) {
        self.name == other.name
    }
}

impl vstd::std_specs::cmp::PartialEqSpecImpl for Employee {
    open spec fn obeys_eq_spec() -> bool {
        true
    }

    open spec fn eq_spec(&self, other: &Self) -> bool {
        self.name@ == other.name@
    }
}

impl Updatable<UpdatedEmployee> for Employee {
    open spec fn applied(self, with: UpdatedEmployee) -> Self {
        Employee {
            name: self.name,
            age: self.age.applied(with.age),
            children: self.children.applied(with.children),
        }
    }

    fn update(&mut self, with: &UpdatedEmployee) {
        self.age.update(&with.age);
        self.children.update(&with.children);
    }

    proof fn lemma_applied_twice(s: Self, with: UpdatedEmployee) {
    }
}

impl Entity for Employee {
    type Update = UpdatedEmployee;

    type ID = String;

    open spec fn id(&self) -> Seq<char> {
        self.name@
    }

    open spec fn full_update(self) -> UpdatedEmployee {
        UpdatedEmployee { age: Option::Some(self.age), children: Option::Some(self.children) }
    }

    fn get_id(&self) -> (id: String) {
        self.name.dup()
    }

    fn into_update(self) -> (u: UpdatedEmployee) {
        UpdatedEmployee { age: Option::Some(self.age), children: Option::Some(self.children) }
    }

    proof fn lemma_applied_preserves_id(e: Self, with: UpdatedEmployee) {
    }

    proof fn lemma_full_update_round_trip(base: Self, e: Self) {
    }
}

impl MongoEntity for Employee {
    open spec fn collection_name_spec() -> Seq<char> {
        "employees"@
    }

    fn collection_name() -> (r: String) {
        "employees".to_owned()
    }
}

/// A value with exactly one logical instance: the page content stored
/// under the fixed identity `home` in the record kind `pages`.
#[derive(Debug)]
pub struct HomePage {
    pub header: String,
    pub body: String,
}

/// The partial-update shape of [`HomePage`].
#[derive(Debug)]
pub struct UpdatedHomePage {
    pub header: Option<String>,
    pub body: Option<String>,
}

impl Dup for HomePage {
    fn dup(&self) -> (r: Self)
        ensures
            r == *self,
    {
        HomePage { header: self.header.dup(), body: self.body.dup() }
    }
}

impl Dup for UpdatedHomePage {
    fn dup(&self) -> (r: Self)
        ensures
            r == *self,
    {
        UpdatedHomePage { header: self.header.dup(), body: self.body.dup() }
    }
}

impl Default for UpdatedHomePage {
    /// The patch that changes nothing.
    fn default() -> (r: Self)
        ensures
            r == (UpdatedHomePage { header: Option::None, body: Option::None }),
    {
        UpdatedHomePage { header: Option::None, body: Option::None }
    }
}

impl UpdatedHomePage {
    /// Set the header carried by this patch.
    pub fn header(self, val: String) -> (r: Self)
        ensures
            r == (UpdatedHomePage { header: Option::Some(val), body: self.body }),
    {
        UpdatedHomePage { header: Option::Some(val), body: self.body }
    }

    /// Set the body carried by this patch.
    pub fn body(self, val: String) -> (r: Self)
        ensures
            r == (UpdatedHomePage { header: self.header, body: Option::Some(val) }),
    {
        UpdatedHomePage { header: self.header, body: Option::Some(val) }
    }
}

impl PartialEq for HomePage {
    fn eq(&self, other: &Self) -> (r: bool) {
        self.header == other.header && self.body == other.body
    }
}

impl vstd::std_specs::cmp::PartialEqSpecImpl for HomePage {
    open spec fn obeys_eq_spec() -> bool {
        true
    }

    open spec fn eq_spec(&self, other: &Self) -> bool {
        self.header@ == other.header@ && self.body@ == other.body@
    }
}

impl Updatable<UpdatedHomePage> for HomePage {
    open spec fn applied(self, with: UpdatedHomePage) -> Self {
        HomePage {
            header: self.header.applied(with.header),
            body: self.body.applied(with.body),
        }
    }

    fn update(&mut self, with: &UpdatedHomePage) {
        self.header.update(&with.header);
        self.body.update(&with.body);
    }

    proof fn lemma_applied_twice(s: Self, with: UpdatedHomePage) {
    }
}

impl Singleton for HomePage {
    type Update = UpdatedHomePage;

    open spec fn entity_id_spec() -> Seq<char> {
        "home"@
    }

    open spec fn kind_name_spec() -> Seq<char> {
        "pages"@
    }

    open spec fn full_update(self) -> UpdatedHomePage {
        UpdatedHomePage { header: Option::Some(self.header), body: Option::Some(self.body) }
    }

    fn entity_id() -> (r: String) {
        "home".to_owned()
    }

    fn kind_name() -> (r: String) {
        "pages".to_owned()
    }

    fn into_update(self) -> (u: UpdatedHomePage) {
        UpdatedHomePage { header: Option::Some(self.header), body: Option::Some(self.body) }
    }

    proof fn lemma_full_update_round_trip(base: Self, e: Self) {
    }
}

} // verus!
