use dspbp::data::enums::{DSPItem, DSPRecipe};
use dspbp::error::{some_error, Error};
use dspbp::text::{chars_of, same_text, string_of};
use dspbp::{iof, parse_comma_list, parse_into_enum_map};

#[test]
fn a_dash_stands_for_the_standard_stream() {
    assert_eq!(iof(&None), None);
    assert_eq!(iof(&Some("-".to_string())), None);
    assert_eq!(iof(&Some("file.txt".to_string())), Some("file.txt"));
    assert_eq!(iof(&Some("--".to_string())), Some("--"));
    assert_eq!(iof(&Some(String::new())), Some(""));
}

fn pair(a: &str, b: &str) -> (String, String) {
    (a.to_string(), b.to_string())
}

#[test]
fn a_list_of_replacements_is_taken_apart() {
    assert_eq!(parse_comma_list("A:B"), Ok(vec![pair("A", "B")]));
    assert_eq!(parse_comma_list("A:B,C:D"), Ok(vec![pair("A", "B"), pair("C", "D")]));
    assert_eq!(parse_comma_list(":"), Ok(vec![pair("", "")]));
    assert_eq!(parse_comma_list(" a : b "), Ok(vec![pair(" a ", " b ")]));
    assert_eq!(parse_comma_list(""), Err(Error::BadReplacement(String::new())));
    assert_eq!(parse_comma_list("A"), Err(Error::BadReplacement("A".to_string())));
    assert_eq!(parse_comma_list("A:B:C"), Err(Error::BadReplacement("A:B:C".to_string())));
    assert_eq!(parse_comma_list("A:B,"), Err(Error::BadReplacement(String::new())));
    assert_eq!(parse_comma_list("A:B,C,D"), Err(Error::BadReplacement("C".to_string())));
}

#[test]
fn the_names_of_a_list_are_looked_up() {
    assert_eq!(
        parse_into_enum_map::<DSPItem>("IronOre:CopperOre,Gear:Prism"),
        Ok(vec![(DSPItem::IronOre, DSPItem::CopperOre), (DSPItem::Gear, DSPItem::Prism)])
    );
    assert_eq!(
        parse_into_enum_map::<DSPRecipe>("Gear:GrapheneAdvanced"),
        Ok(vec![(DSPRecipe::Gear, DSPRecipe::GrapheneAdvanced)])
    );
    assert_eq!(
        parse_into_enum_map::<DSPItem>("Gear:GrapheneAdvanced"),
        Err(Error::UnknownName("GrapheneAdvanced".to_string(), "item"))
    );
    // The first name that is not known is the one that is reported.
    assert_eq!(
        parse_into_enum_map::<DSPItem>("Gear:Prism,x:y"),
        Err(Error::UnknownName("x".to_string(), "item"))
    );
    assert_eq!(
        parse_into_enum_map::<DSPItem>("Gear:y,x:Prism"),
        Err(Error::UnknownName("y".to_string(), "item"))
    );
    // A piece that is no pair is reported before any name is looked up.
    assert_eq!(
        parse_into_enum_map::<DSPItem>("x:y,Gear"),
        Err(Error::BadReplacement("Gear".to_string()))
    );
}

#[test]
fn an_error_with_a_message() {
    assert_eq!(some_error("it broke"), Error::E("it broke".to_string()));
    assert_eq!(some_error("it broke").message(), "it broke");
}

#[test]
fn the_messages_of_failures() {
    assert_eq!(Error::ChecksumMismatch.message(), "Blueprint hash does not match calculated hash");
    assert_eq!(Error::MissingHashDelimiter.message(), "Did not find hash delimiter");
    assert_eq!(Error::BadFieldCount.message(), "Expected 12 CSV elements");
    assert_eq!(Error::TruncatedInput.message(), "Blueprint data ends too early");
    assert_eq!(
        parse_into_enum_map::<DSPRecipe>("Gear:Gears").unwrap_err().message(),
        "'Gears' is not a known recipe. Run 'dspbp items' or 'dspbp recipes' for a list of \
         item/recipe names."
    );
    assert_eq!(
        parse_into_enum_map::<DSPItem>("é:Gear").unwrap_err().message(),
        "'é' is not a known item. Run 'dspbp items' or 'dspbp recipes' for a list of \
         item/recipe names."
    );
    assert_eq!(
        parse_comma_list("a:b,c").unwrap_err().message(),
        "Invalid input in replacement list: \"c\". Expected two names separated by a colon, ':'."
    );
    assert_eq!(
        Error::InvalidReplacement(2303, 2001).message(),
        "Cannot replace buildings: AssemblingMachineMkI -> ConveyorBeltMKI"
    );
    assert_eq!(
        Error::InvalidReplacement(9999, 0).message(),
        "Cannot replace buildings: 9999 -> 0"
    );
}

#[test]
fn texts_as_characters() {
    assert_eq!(chars_of("aé\u{1F600}"), vec!['a', 'é', '\u{1F600}']);
    assert_eq!(string_of(&['a', 'é', '\u{1F600}']), "aé\u{1F600}");
    assert!(same_text("abc", "abc"));
    assert!(!same_text("abc", "abd"));
    assert!(!same_text("abc", "ab"));
    assert!(same_text("", ""));
}
