use opsops::op::{
    age_key_item, field_labels, item_get_args, item_list_args, item_titles, op_item_create_args,
    op_item_get, op_item_get_args, op_read_args, op_reference, vault_list_args, vault_names,
    CommandOutput, ItemField, ItemFields, ListItem, OpCategory, OpItem, OpItemField, Vault,
};

fn field(section: Option<&str>, name: &str, kind: Option<&str>, value: &str) -> OpItemField {
    OpItemField {
        section: section.map(|s| s.to_string()),
        field: name.to_string(),
        field_type: kind.map(|s| s.to_string()),
        value: value.to_string(),
    }
}

#[test]
fn category_names() {
    assert_eq!(OpCategory::Login.as_str(), "login");
    assert_eq!(OpCategory::Password.as_str(), "password");
    assert_eq!(OpCategory::Identity.as_str(), "identity");
    assert_eq!(OpCategory::Server.as_str(), "server");
}

#[test]
fn flag_with_section_and_type() {
    assert_eq!(field(Some("keys"), "Public Key", Some("STRING"), "abc").to_flag(), "keys.Public Key[STRING]=abc");
}

#[test]
fn flag_with_section_only() {
    assert_eq!(field(Some("keys"), "user", None, "me").to_flag(), "keys.user=me");
}

#[test]
fn flag_with_type_only() {
    assert_eq!(field(None, "Private Key", Some("PASSWORD"), "s3").to_flag(), "Private Key[PASSWORD]=s3");
}

#[test]
fn flag_plain() {
    assert_eq!(field(None, "note", None, "").to_flag(), "note=");
}

#[test]
fn create_args_list_fields_in_order() {
    let item = OpItem {
        vault: "Personal".to_string(),
        title: "sops".to_string(),
        category: OpCategory::Password,
        fields: vec![field(None, "a", None, "1"), field(Some("s"), "b", Some("STRING"), "2")],
    };
    assert_eq!(
        op_item_create_args(&item),
        vec!["item", "create", "--vault", "Personal", "--title", "sops", "--category", "password", "a=1", "s.b[STRING]=2"]
    );
}

#[test]
fn create_args_without_fields() {
    let item = OpItem { vault: "V".to_string(), title: "T".to_string(), category: OpCategory::Server, fields: vec![] };
    assert_eq!(op_item_create_args(&item), vec!["item", "create", "--vault", "V", "--title", "T", "--category", "server"]);
}

#[test]
fn query_args() {
    assert_eq!(op_item_get_args("it", "f"), vec!["item", "get", "it", "--field", "f"]);
    assert_eq!(vault_list_args(), vec!["vault", "list", "--format=json"]);
    assert_eq!(item_list_args("Vault"), vec!["item", "list", "--vault", "Vault", "--format=json"]);
    assert_eq!(item_get_args("Item", "Vault"), vec!["item", "get", "Item", "--vault", "Vault", "--format=json"]);
    assert_eq!(op_read_args("op://V/I/F"), vec!["read", "op://V/I/F"]);
}

#[test]
fn reference_has_three_parts() {
    assert_eq!(op_reference("Vault", "Item", "Field"), "op://Vault/Item/Field");
}

#[test]
fn age_key_item_has_both_keys() {
    let item = age_key_item("my key", "age1pub", "AGE-SECRET-KEY-1X");
    assert_eq!(item.vault, "Personal");
    assert_eq!(item.title, "my key");
    assert_eq!(item.category, OpCategory::Password);
    assert_eq!(item.fields.len(), 2);
    assert_eq!(item.fields[0].to_flag(), "Public Key[STRING]=age1pub");
    assert_eq!(item.fields[1].to_flag(), "Private Key[PASSWORD]=AGE-SECRET-KEY-1X");
}

#[test]
fn names_are_extracted_in_order() {
    let vault = |n: &str| Vault {
        id: "id".to_string(),
        name: n.to_string(),
        content_version: 1,
        created_at: "c".to_string(),
        updated_at: "u".to_string(),
        items: 0,
    };
    assert_eq!(vault_names(&vec![vault("Personal"), vault("Work")]), vec!["Personal", "Work"]);
    assert!(vault_names(&vec![]).is_empty());
    let items = vec![ListItem { title: "a".to_string() }, ListItem { title: "b".to_string() }];
    assert_eq!(item_titles(&items), vec!["a", "b"]);
    let fields = ItemFields { fields: vec![ItemField { label: "password".to_string() }, ItemField { label: "notes".to_string() }] };
    assert_eq!(field_labels(&fields), vec!["password", "notes"]);
}

#[test]
fn item_get_trims_output() {
    let out = CommandOutput { success: true, stdout: "  value \n".to_string(), stderr: String::new() };
    assert_eq!(op_item_get(Ok(out)), Some("value".to_string()));
}

#[test]
fn item_get_fails_on_error() {
    let out = CommandOutput { success: false, stdout: "x".to_string(), stderr: "denied".to_string() };
    assert_eq!(op_item_get(Ok(out)), None);
    assert_eq!(op_item_get(Err("not found".to_string())), None);
}
