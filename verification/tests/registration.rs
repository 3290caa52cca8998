use account::users::UserDirectory;

const USER: &str = "l4sux-ovcbh-qjlir-sij5b-xffaa-uydtf-zlwgz-ezskj-zlar3-4ap3v-2qe";

fn principal_bytes(text: &str) -> Vec<u8> {
    candid::Principal::from_text(text).unwrap().as_slice().to_vec()
}

#[test]
fn register_then_get() {
    let mut users = UserDirectory::new();
    let p = principal_bytes(USER);
    assert!(!users.user_exists(&p));
    assert!(users.get_user(&p).is_none());
    assert_eq!(users.register_user(&p, "Ada".to_string(), "Lovelace".to_string()), Ok(()));
    assert!(users.user_exists(&p));
    let info = users.get_user(&p).unwrap();
    assert_eq!(info.first_name, "Ada");
    assert_eq!(info.last_name, "Lovelace");
}

#[test]
fn register_twice_is_refused() {
    let mut users = UserDirectory::new();
    let p = principal_bytes(USER);
    users.register_user(&p, "Ada".to_string(), "Lovelace".to_string()).unwrap();
    let again = users.register_user(&p, "Grace".to_string(), "Hopper".to_string());
    assert_eq!(again, Err(format!("User with principal {} already exists", USER)));
    let info = users.get_user(&p).unwrap();
    assert_eq!(info.first_name, "Ada");
}

#[test]
fn users_are_kept_apart() {
    let mut users = UserDirectory::new();
    let a = principal_bytes(USER);
    let b = candid::Principal::anonymous().as_slice().to_vec();
    let c = candid::Principal::management_canister().as_slice().to_vec();
    users.register_user(&a, "A".to_string(), "1".to_string()).unwrap();
    users.register_user(&b, "B".to_string(), "2".to_string()).unwrap();
    assert!(users.user_exists(&a) && users.user_exists(&b));
    assert!(!users.user_exists(&c));
    assert_eq!(users.get_user(&b).unwrap().first_name, "B");
    users.register_user(&c, "C".to_string(), "3".to_string()).unwrap();
    assert_eq!(users.get_user(&c).unwrap().last_name, "3");
    assert_eq!(
        users.register_user(&c, "D".to_string(), "4".to_string()),
        Err("User with principal aaaaa-aa already exists".to_string())
    );
}
