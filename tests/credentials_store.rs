use awsso::{get_credentials, merge_credentials, merged_store_text, write_credentials};
use awsso::{CredentialsSection, RefreshError};

fn entry(region: &str, ak: &str, sk: &str, st: &str) -> CredentialsSection {
    CredentialsSection {
        region: region.to_string(),
        aws_access_key_id: ak.to_string(),
        aws_secret_access_key: sk.to_string(),
        aws_session_token: st.to_string(),
    }
}

fn same(a: &CredentialsSection, b: &CredentialsSection) -> bool {
    a.region == b.region
        && a.aws_access_key_id == b.aws_access_key_id
        && a.aws_secret_access_key == b.aws_secret_access_key
        && a.aws_session_token == b.aws_session_token
}

const TWO: &str = "[A]
region = eu-west-1
aws_access_key_id = akA
aws_secret_access_key = skA
aws_session_token = stA

[B]
region = us-east-1
aws_access_key_id = akB
aws_secret_access_key = skB
aws_session_token = stB

[incomplete]
region = us-east-1
";

#[test]
fn read_drops_incomplete_sections() {
    let store = get_credentials(TWO).ok().unwrap();
    assert_eq!(store.len(), 2);
    assert_eq!(store[0].0, "A");
    assert!(same(&store[1].1, &entry("us-east-1", "akB", "skB", "stB")));
}

#[test]
fn write_then_read_keeps_siblings() {
    let mut store = get_credentials(TWO).ok().unwrap();
    merge_credentials(&mut store, "X".to_string(), entry("ap-south-1", "ak", "sk", "st"));
    let text = write_credentials(&store);
    let back = get_credentials(&text).ok().unwrap();
    assert_eq!(back.len(), 3);
    let names: Vec<&str> = back.iter().map(|p| p.0.as_str()).collect();
    assert_eq!(names, vec!["A", "B", "X"]);
    assert!(same(&back[0].1, &entry("eu-west-1", "akA", "skA", "stA")));
    assert!(same(&back[1].1, &entry("us-east-1", "akB", "skB", "stB")));
    assert!(same(&back[2].1, &entry("ap-south-1", "ak", "sk", "st")));
}

#[test]
fn merge_replaces_existing_entry_in_place() {
    let mut store = get_credentials(TWO).ok().unwrap();
    merge_credentials(&mut store, "A".to_string(), entry("r", "1", "2", "3"));
    merge_credentials(&mut store, "A".to_string(), entry("r", "1", "2", "3"));
    assert_eq!(store.len(), 2);
    assert_eq!(store[0].0, "A");
    assert!(same(&store[0].1, &entry("r", "1", "2", "3")));
    assert!(same(&store[1].1, &entry("us-east-1", "akB", "skB", "stB")));
}

#[test]
fn later_section_for_a_name_wins() {
    let text = "[A]
region = r1
aws_access_key_id = a1
aws_secret_access_key = s1
aws_session_token = t1
[A]
region = r2
aws_access_key_id = a2
aws_secret_access_key = s2
aws_session_token = t2
";
    let store = get_credentials(text).ok().unwrap();
    assert_eq!(store.len(), 1);
    assert!(same(&store[0].1, &entry("r2", "a2", "s2", "t2")));
}

#[test]
fn written_text_has_all_fields() {
    let store = vec![("p".to_string(), entry("r", "ak", "sk", "st"))];
    let text = write_credentials(&store);
    assert!(text.contains("[p]"));
    assert!(text.contains("region=r"));
    assert!(text.contains("aws_access_key_id=ak"));
    assert!(text.contains("aws_secret_access_key=sk"));
    assert!(text.contains("aws_session_token=st"));
}

#[test]
fn merged_text_of_empty_store() {
    let text = merged_store_text("", "p".to_string(), entry("r", "ak", "sk", "st")).ok().unwrap();
    let back = get_credentials(&text).ok().unwrap();
    assert_eq!(back.len(), 1);
    assert_eq!(back[0].0, "p");
}

#[test]
fn invalid_credentials_text_is_malformed() {
    assert!(matches!(get_credentials("[A\n"), Err(RefreshError::Malformed)));
    assert!(matches!(
        merged_store_text("[A\n", "p".to_string(), entry("r", "a", "s", "t")),
        Err(RefreshError::Malformed)
    ));
}
