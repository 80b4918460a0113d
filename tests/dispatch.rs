use std::collections::HashMap;

use fn_overload::info::InfoBuilder;
use fn_overload::input_output_overload as io;
use fn_overload::input_overload as inp;

use io::trait_fn::T as IoT;
use inp::trait_fn::T as InT;

#[test]
fn free_dispatch_unit_gives_one() {
    assert_eq!(inp::independent_fn::f(()), 1);
}

#[test]
fn free_dispatch_pair_gives_single_entry_map() {
    let m = inp::independent_fn::f(("Independent Fn", 1));
    let mut expected: HashMap<i32, String> = HashMap::new();
    expected.insert(1, String::from("Independent Fn"));
    assert_eq!(m, expected);
    assert_eq!(m.len(), 1);
}

#[test]
fn owned_dispatch_unit_gives_two() {
    let o = inp::struct_fn::O;
    assert_eq!(o.f(()), 2);
    assert_ne!(o.f(()), inp::independent_fn::f(()));
}

#[test]
fn owned_dispatch_pair_gives_single_entry_map() {
    let m = inp::struct_fn::O.f(("Struct Fn", 2));
    assert_eq!(m.len(), 1);
    assert_eq!(m.get(&2), Some(&String::from("Struct Fn")));
}

#[test]
fn capability_dispatch_input_only_unit_gives_one() {
    assert_eq!(inp::trait_fn::I.f(()), 1);
    let m = inp::trait_fn::I.f(("Trait Fn", 3));
    assert_eq!(m.get(&3), Some(&String::from("Trait Fn")));
}

#[test]
fn capability_dispatch_unit_by_requested_output() {
    let i = io::trait_fn::I;
    let n: i32 = i.f(());
    assert_eq!(n, 5);
    let v: Vec<String> = i.f(());
    assert_eq!(v.len(), 2);
    assert_eq!(v[0], "trait_fn");
    assert_eq!(v[1], "()");
}

#[test]
fn capability_dispatch_async_family_unit() {
    let i = io::trait_fn::I;
    let n: i32 = i.f_async(());
    assert_eq!(n, 6);
    let v: Vec<String> = i.f_async(());
    assert_eq!(v, vec![String::from("trait_fn"), String::from("()")]);
}

#[test]
fn free_dispatch_output_type_selects_candidate() {
    let n: i32 = io::independent_fn::f(());
    let v: Vec<String> = io::independent_fn::f(());
    assert_eq!(n, 5);
    assert_eq!(v, vec![String::from("trait_fn"), String::from("()")]);
    let n_async: i32 = io::independent_fn::f_async(());
    assert_eq!(n_async, 6);
}

#[test]
fn owned_dispatch_output_type_selects_candidate() {
    let o = io::struct_fn::O;
    let info = InfoBuilder::default().height(180).build();
    let n: i32 = o.f(&info);
    let n_async: i32 = o.f_async(&info);
    let v: Vec<String> = o.f(&info);
    assert_eq!(n, 3);
    assert_eq!(n_async, 4);
    assert_eq!(v[0], "trait_fn");
    assert!(v[1].contains("height: 180"));
}

#[test]
fn record_with_father_overridden_renders_defaults() {
    let info = InfoBuilder::default().father_name("X").build();
    let v = inp::independent_fn::f(&info);
    assert_eq!(v.len(), 2);
    assert_eq!(v[0], "trait_fn");
    let text = &v[1];
    assert!(text.contains("father_name: \"X\""));
    assert!(text.contains("name: \"David\""));
    assert!(text.contains("mother_name: \"Sophia\""));
    assert!(text.contains("birth_day: \"2000-03-06\""));
    assert!(text.contains("height: 170"));
    assert!(text.contains("weight: 70"));
    assert!(text.contains("language: \"English\""));
    assert!(!text.contains("Matt"));
}

#[test]
fn builder_without_setters_gives_defaults() {
    let info = InfoBuilder::new().build();
    assert_eq!(info.name(), "David");
    assert_eq!(info.father_name(), "Matt");
    assert_eq!(info.mother_name(), "Sophia");
    assert_eq!(info.birth_day(), "2000-03-06");
    assert_eq!(info.height(), 170);
    assert_eq!(info.weight(), 70);
    assert_eq!(info.language(), "English");
}

#[test]
fn builder_subset_keeps_other_defaults() {
    let info = InfoBuilder::default()
        .birth_day("1990-12-07")
        .father_name("Independent Fn Father")
        .mother_name("Independent Fn Mother")
        .weight(90)
        .build();
    assert_eq!(info.name(), "David");
    assert_eq!(info.father_name(), "Independent Fn Father");
    assert_eq!(info.mother_name(), "Independent Fn Mother");
    assert_eq!(info.birth_day(), "1990-12-07");
    assert_eq!(info.height(), 170);
    assert_eq!(info.weight(), 90);
    assert_eq!(info.language(), "English");
}

#[test]
fn builder_every_setter_overrides() {
    let info = InfoBuilder::new()
        .name("Ann")
        .father_name("Bo")
        .mother_name("Cy")
        .birth_day("1999-01-01")
        .height(i32::MIN)
        .weight(i32::MAX)
        .language("")
        .build();
    assert_eq!(info.name(), "Ann");
    assert_eq!(info.father_name(), "Bo");
    assert_eq!(info.mother_name(), "Cy");
    assert_eq!(info.birth_day(), "1999-01-01");
    assert_eq!(info.height(), i32::MIN);
    assert_eq!(info.weight(), i32::MAX);
    assert_eq!(info.language(), "");
}

#[test]
fn pretty_rendering_names_every_field() {
    let info = InfoBuilder::new().name("Zed").build();
    let text = info.pretty();
    assert!(text.starts_with("Info {"));
    assert!(text.contains("name: \"Zed\""));
    assert!(text.contains('\n'));
}

#[test]
fn repeated_dispatch_is_deterministic() {
    let info = InfoBuilder::new().build();
    let first = inp::independent_fn::f(&info);
    let _ = inp::independent_fn::f(());
    let second = inp::independent_fn::f(&info);
    assert_eq!(first, second);
    assert_eq!(inp::independent_fn::f(()), inp::independent_fn::f(()));
}

#[test]
fn capability_forwards_to_value_candidate() {
    let info = InfoBuilder::new().weight(90).build();
    let via_capability = inp::trait_fn::I.f(&info);
    let direct = inp::trait_fn::F::f(&&info, &inp::trait_fn::I);
    assert_eq!(via_capability, direct);
    let via_async = inp::trait_fn::I.f_async(&info);
    assert_eq!(via_async, direct);
    let n: i32 = io::trait_fn::I.f(&info);
    let n_direct: i32 = io::trait_fn::F::f(&&info, &io::trait_fn::I);
    assert_eq!(n, n_direct);
}

#[test]
fn capability_and_free_dispatch_agree() {
    let info = InfoBuilder::new().father_name("Trait Fn Father").build();
    let i = inp::trait_fn::I;
    assert_eq!(i.f(()), inp::independent_fn::f(()));
    assert_eq!(i.f(("Trait Fn", 3)), inp::independent_fn::f(("Trait Fn", 3)));
    assert_eq!(i.f(&info), inp::independent_fn::f(&info));
    assert_eq!(i.f_async(&info), inp::independent_fn::f_async(&info));

    let c = io::trait_fn::I;
    let (a, b): (i32, i32) = (c.f(()), io::independent_fn::f(()));
    assert_eq!(a, b);
    let (a, b): (i32, i32) = (c.f_async(()), io::independent_fn::f_async(()));
    assert_eq!(a, b);
    let (a, b): (i32, i32) = (c.f(&info), io::independent_fn::f(&info));
    assert_eq!(a, b);
    let (a, b): (i32, i32) = (c.f_async(&info), io::independent_fn::f_async(&info));
    assert_eq!(a, b);
    let (a, b): (Vec<String>, Vec<String>) = (c.f(&info), io::independent_fn::f(&info));
    assert_eq!(a, b);
    let (a, b): (Vec<String>, Vec<String>) = (c.f(()), io::independent_fn::f(()));
    assert_eq!(a, b);
}

#[test]
fn async_family_matches_sync_rendering() {
    let info = InfoBuilder::new().build();
    assert_eq!(inp::independent_fn::f_async(&info), inp::independent_fn::f(&info));
    assert_eq!(inp::struct_fn::O.f_async(&info), inp::struct_fn::O.f(&info));
}

#[test]
fn single_entry_map_holds_key_and_value() {
    let m = fn_overload::outcome::single_entry(-7, "neg");
    assert_eq!(m.len(), 1);
    assert_eq!(m.get(&-7), Some(&String::from("neg")));
    let e = fn_overload::outcome::single_entry(0, "");
    assert_eq!(e.get(&0), Some(&String::new()));
}

#[test]
fn tag_text_puts_tag_first() {
    let v = fn_overload::outcome::tag_text(String::from("body"));
    assert_eq!(v, vec![String::from("trait_fn"), String::from("body")]);
    assert_eq!(fn_overload::outcome::tag_unit()[1], "()");
}

#[test]
fn record_by_requested_output_free_and_capability() {
    let info = InfoBuilder::new().build();
    let n: i32 = io::independent_fn::f(&info);
    let n_async: i32 = io::independent_fn::f_async(&info);
    assert_eq!(n, 1);
    assert_eq!(n_async, 2);
    let c = io::trait_fn::I;
    let m: i32 = c.f(&info);
    let m_async: i32 = c.f_async(&info);
    assert_eq!(m, 1);
    assert_eq!(m_async, 2);
}

#[test]
fn default_record_is_empty() {
    let info = fn_overload::info::Info::default();
    assert_eq!(info.name(), "");
    assert_eq!(info.father_name(), "");
    assert_eq!(info.mother_name(), "");
    assert_eq!(info.birth_day(), "");
    assert_eq!(info.height(), 0);
    assert_eq!(info.weight(), 0);
    assert_eq!(info.language(), "");
}
