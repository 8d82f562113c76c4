//! 1Password items and the arguments of the `op` command line.

use vstd::prelude::*;

use crate::text::{opt_view, trim_text, trimmed, views};

verus! {

/// The category of a 1Password item.
#[derive(Clone, Copy, Debug, PartialEq, Eq, Structural)]
pub enum OpCategory {
    Login,
    Password,
    Identity,
    Server,
}

/// The name of a category as `op item create --category` takes it.
pub open spec fn category_name(c: OpCategory) -> Seq<char> {
    match c {
        OpCategory::Login => "login"@,
        OpCategory::Password => "password"@,
        OpCategory::Identity => "identity"@,
        OpCategory::Server => "server"@,
    }
}

impl OpCategory {
    pub fn as_str(&self) -> (r: &'static str)
        ensures
            r@ == category_name(*self),
    {
        match self {
            OpCategory::Login => "login",
            OpCategory::Password => "password",
            OpCategory::Identity => "identity",
            OpCategory::Server => "server",
        }
    }
}


/// One field of a 1Password item, as `op item get --format=json` lists it.
#[derive(Clone, Debug)]
pub struct ItemField {
    pub label: String,
}

/// The fields of a 1Password item.
#[derive(Clone, Debug)]
pub struct ItemFields {
    pub fields: Vec<ItemField>,
}

/// One entry of `op item list --format=json`.
#[derive(Clone, Debug)]
pub struct ListItem {
    pub title: String,
}

/// One entry of `op vault list --format=json`.
#[derive(Clone, Debug)]
pub struct Vault {
    pub id: String,
    pub name: String,
    pub content_version: u32,
    pub created_at: String,
    pub updated_at: String,
    pub items: u32,
}

/// A field of a 1Password item to be created.
#[derive(Clone, Debug)]
pub struct OpItemField {
    pub section: Option<String>,
    pub field: String,
    pub field_type: Option<String>,
    pub value: String,
}

/// A 1Password item to be created.
#[derive(Clone, Debug)]
pub struct OpItem {
    pub vault: String,
    pub title: String,
    pub category: OpCategory,
    pub fields: Vec<OpItemField>,
}

/// The assignment `[section.]field[[type]]=value` that `op item create` takes.
pub open spec fn flag_of(f: OpItemField) -> Seq<char> {
    let head = match f.section {
        Some(s) => s@ + "."@,
        None => Seq::empty(),
    };
    let kind = match f.field_type {
        Some(t) => "["@ + t@ + "]"@,
        None => Seq::empty(),
    };
    head + f.field@ + kind + "="@ + f.value@
}

impl OpItemField {
    pub fn to_flag(&self) -> (r: String)
        ensures
            r@ == flag_of(*self),
    {
        let mut flag = String::new();
        if let Some(section) = &self.section {
            flag.append(section.as_str());
            flag.append(".");
        }
        flag.append(self.field.as_str());
        if let Some(field_type) = &self.field_type {
            flag.append("[");
            flag.append(field_type.as_str());
            flag.append("]");
        }
        flag.append("=");
        flag.append(self.value.as_str());
        assert(flag@ =~= flag_of(*self));
        flag
    }
}

pub open spec fn flags_of(fields: Seq<OpItemField>) -> Seq<Seq<char>> {
    fields.map_values(|f: OpItemField| flag_of(f))
}

/// The arguments of `op` that create `item`.
pub open spec fn item_create_args(item: OpItem) -> Seq<Seq<char>> {
    seq![
        "item"@,
        "create"@,
        "--vault"@,
        item.vault@,
        "--title"@,
        item.title@,
        "--category"@,
        category_name(item.category),
    ] + flags_of(item.fields@)
}

/// The arguments of `op` that create `item`, its fields in their order.
pub fn op_item_create_args(item: &OpItem) -> (r: Vec<String>)
    ensures
        views(r@) == item_create_args(*item),
{
    let mut r: Vec<String> = Vec::new();
    r.push(String::from_str("item"));
    r.push(String::from_str("create"));
    r.push(String::from_str("--vault"));
    r.push(item.vault.clone());
    r.push(String::from_str("--title"));
    r.push(item.title.clone());
    r.push(String::from_str("--category"));
    r.push(String::from_str(item.category.as_str()));
    let ghost head = views(r@);
    assert(head =~= item_create_args(*item).subrange(0, 8));
    let mut i: usize = 0;
    while i < item.fields.len()
        invariant
            i <= item.fields@.len(),
            head == item_create_args(*item).subrange(0, 8),
            views(r@) == head + flags_of(item.fields@.subrange(0, i as int)),
        decreases item.fields@.len() - i,
    {
        let ghost before = r@;
        let flag = item.fields[i].to_flag();
        r.push(flag);
        assert(views(r@) =~= views(before).push(flag_of(item.fields@[i as int])));
        assert(flags_of(item.fields@.subrange(0, i + 1)) =~= flags_of(
            item.fields@.subrange(0, i as int),
        ).push(flag_of(item.fields@[i as int])));
        assert(views(r@) =~= head + flags_of(item.fields@.subrange(0, i + 1)));
        i = i + 1;
    }
    assert(item.fields@.subrange(0, item.fields@.len() as int) =~= item.fields@);
    assert(views(r@) =~= item_create_args(*item));
    r
}

/// The arguments of `op` that read one field of an item.
pub fn op_item_get_args(item_name: &str, field: &str) -> (r: Vec<String>)
    ensures
        views(r@) == seq!["item"@, "get"@, item_name@, "--field"@, field@],
{
    let r = vec![
        String::from_str("item"),
        String::from_str("get"),
        String::from_str(item_name),
        String::from_str("--field"),
        String::from_str(field),
    ];
    assert(views(r@) =~= seq!["item"@, "get"@, item_name@, "--field"@, field@]);
    r
}

/// What a finished command printed and whether it exited successfully.
#[derive(Clone, Debug)]
pub struct CommandOutput {
    pub success: bool,
    pub stdout: String,
    pub stderr: String,
}

/// The value of a field that `op item get --field` printed: its output trimmed,
/// or nothing where `op` could not be run or failed.
pub fn op_item_get(output: Result<CommandOutput, String>) -> (r: Option<String>)
    ensures
        r is Some <==> (output matches Ok(o) && o.success),
        match output {
            Ok(o) => o.success ==> (r matches Some(v) && v@ == trimmed(o.stdout@)),
            Err(_) => true,
        },
{
    match output {
        Ok(o) => {
            if o.success {
                Some(trim_text(o.stdout.as_str()).to_owned())
            } else {
                None
            }
        },
        Err(_) => None,
    }
}

/// The arguments of `op` that list the vaults as JSON.
pub fn vault_list_args() -> (r: Vec<String>)
    ensures
        views(r@) == seq!["vault"@, "list"@, "--format=json"@],
{
    let r = vec![
        String::from_str("vault"),
        String::from_str("list"),
        String::from_str("--format=json"),
    ];
    assert(views(r@) =~= seq!["vault"@, "list"@, "--format=json"@]);
    r
}

/// The arguments of `op` that list the items of a vault as JSON.
pub fn item_list_args(vault: &str) -> (r: Vec<String>)
    ensures
        views(r@) == seq!["item"@, "list"@, "--vault"@, vault@, "--format=json"@],
{
    let r = vec![
        String::from_str("item"),
        String::from_str("list"),
        String::from_str("--vault"),
        String::from_str(vault),
        String::from_str("--format=json"),
    ];
    assert(views(r@) =~= seq!["item"@, "list"@, "--vault"@, vault@, "--format=json"@]);
    r
}

/// The arguments of `op` that describe one item of a vault, fields included, as JSON.
pub fn item_get_args(item: &str, vault: &str) -> (r: Vec<String>)
    ensures
        views(r@) == seq!["item"@, "get"@, item@, "--vault"@, vault@, "--format=json"@],
{
    let r = vec![
        String::from_str("item"),
        String::from_str("get"),
        String::from_str(item),
        String::from_str("--vault"),
        String::from_str(vault),
        String::from_str("--format=json"),
    ];
    assert(views(r@) =~= seq!["item"@, "get"@, item@, "--vault"@, vault@, "--format=json"@]);
    r
}

/// The arguments of `op` that read the secret behind a reference.
pub fn op_read_args(reference: &str) -> (r: Vec<String>)
    ensures
        views(r@) == seq!["read"@, reference@],
{
    let r = vec![String::from_str("read"), String::from_str(reference)];
    assert(views(r@) =~= seq!["read"@, reference@]);
    r
}

/// The names of the vaults, in the order listed.
pub fn vault_names(vaults: &Vec<Vault>) -> (r: Vec<String>)
    ensures
        views(r@) == vaults@.map_values(|v: Vault| v.name@),
{
    let mut r: Vec<String> = Vec::new();
    let mut i: usize = 0;
    while i < vaults.len()
        invariant
            i <= vaults@.len(),
            views(r@) == vaults@.subrange(0, i as int).map_values(|v: Vault| v.name@),
        decreases vaults@.len() - i,
    {
        r.push(vaults[i].name.clone());
        assert(vaults@.subrange(0, i + 1).map_values(|v: Vault| v.name@) =~= vaults@.subrange(
            0,
            i as int,
        ).map_values(|v: Vault| v.name@).push(vaults@[i as int].name@));
        assert(views(r@) =~= vaults@.subrange(0, i + 1).map_values(|v: Vault| v.name@));
        i = i + 1;
    }
    assert(vaults@.subrange(0, vaults@.len() as int) =~= vaults@);
    r
}

/// The titles of the items, in the order listed.
pub fn item_titles(items: &Vec<ListItem>) -> (r: Vec<String>)
    ensures
        views(r@) == items@.map_values(|v: ListItem| v.title@),
{
    let mut r: Vec<String> = Vec::new();
    let mut i: usize = 0;
    while i < items.len()
        invariant
            i <= items@.len(),
            views(r@) == items@.subrange(0, i as int).map_values(|v: ListItem| v.title@),
        decreases items@.len() - i,
    {
        r.push(items[i].title.clone());
        assert(items@.subrange(0, i + 1).map_values(|v: ListItem| v.title@) =~= items@.subrange(
            0,
            i as int,
        ).map_values(|v: ListItem| v.title@).push(items@[i as int].title@));
        assert(views(r@) =~= items@.subrange(0, i + 1).map_values(|v: ListItem| v.title@));
        i = i + 1;
    }
    assert(items@.subrange(0, items@.len() as int) =~= items@);
    r
}

/// The labels of an item's fields, in the order listed.
pub fn field_labels(item: &ItemFields) -> (r: Vec<String>)
    ensures
        views(r@) == item.fields@.map_values(|f: ItemField| f.label@),
{
    let fields = &item.fields;
    let mut r: Vec<String> = Vec::new();
    let mut i: usize = 0;
    while i < fields.len()
        invariant
            i <= fields@.len(),
            views(r@) == fields@.subrange(0, i as int).map_values(|f: ItemField| f.label@),
        decreases fields@.len() - i,
    {
        r.push(fields[i].label.clone());
        assert(fields@.subrange(0, i + 1).map_values(|f: ItemField| f.label@) =~= fields@.subrange(
            0,
            i as int,
        ).map_values(|f: ItemField| f.label@).push(fields@[i as int].label@));
        assert(views(r@) =~= fields@.subrange(0, i + 1).map_values(|f: ItemField| f.label@));
        i = i + 1;
    }
    assert(fields@.subrange(0, fields@.len() as int) =~= fields@);
    r
}

/// The reference `op://<vault>/<item>/<field>` to one field of a 1Password item.
pub open spec fn reference_of(vault: Seq<char>, item: Seq<char>, field: Seq<char>) -> Seq<char> {
    "op://"@ + vault + "/"@ + item + "/"@ + field
}

pub fn op_reference(vault: &str, item: &str, field: &str) -> (r: String)
    ensures
        r@ == reference_of(vault@, item@, field@),
{
    let mut r = String::from_str("op://");
    r.append(vault);
    r.append("/");
    r.append(item);
    r.append("/");
    r.append(field);
    assert(r@ =~= reference_of(vault@, item@, field@));
    r
}

/// The password item, in the vault `Personal`, that keeps an age key pair under `title`.
pub open spec fn is_age_key_item(item: OpItem, title: Seq<char>, public: Seq<char>, secret: Seq<char>) -> bool {
    &&& item.vault@ == "Personal"@
    &&& item.title@ == title
    &&& item.category == OpCategory::Password
    &&& item.fields@.len() == 2
    &&& item.fields@[0].section is None
    &&& item.fields@[0].field@ == "Public Key"@
    &&& opt_view(item.fields@[0].field_type) == Some("STRING"@)
    &&& item.fields@[0].value@ == public
    &&& item.fields@[1].section is None
    &&& item.fields@[1].field@ == "Private Key"@
    &&& opt_view(item.fields@[1].field_type) == Some("PASSWORD"@)
    &&& item.fields@[1].value@ == secret
}

pub fn age_key_item(title: &str, public_key: &str, secret_key: &str) -> (r: OpItem)
    ensures
        is_age_key_item(r, title@, public_key@, secret_key@),
{
    let public = OpItemField {
        section: None,
        field: String::from_str("Public Key"),
        field_type: Some(String::from_str("STRING")),
        value: String::from_str(public_key),
    };
    let secret = OpItemField {
        section: None,
        field: String::from_str("Private Key"),
        field_type: Some(String::from_str("PASSWORD")),
        value: String::from_str(secret_key),
    };
    OpItem {
        vault: String::from_str("Personal"),
        title: String::from_str(title),
        category: OpCategory::Password,
        fields: vec![public, secret],
    }
}

} // verus!
