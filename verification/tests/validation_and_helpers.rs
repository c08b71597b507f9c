use prod::control::control_system_validation::{SystemValidation, SystemValidationReleaseVersion};
use prod::control::file_modifier_helpers::test_modify_helper;
use prod::control::terminal_helpers_linux::{extract_contents_from_brackets, extract_details_from_stat_output, file_mode_from_stat};

#[test]
fn test_parse_invalid_strings1() {
    assert_eq!(SystemValidation::parse_string_value("").is_err(), true);

    assert_eq!(SystemValidation::parse_string_value("(").is_err(), true);

    assert_eq!(SystemValidation::parse_string_value("()").is_err(), true);

    assert_eq!(SystemValidation::parse_string_value("(egeg").is_err(), true);
}

#[test]
fn test_parse_single_string() {
    let res1 = SystemValidation::parse_string_value("Debian");
    assert!(res1.is_ok());
    if let Ok(internal) = res1 {
        assert_eq!(internal.id_name, Some("Debian".to_string()));
        assert_eq!(internal.release, SystemValidationReleaseVersion::NotSet);
    }

    let res2 = SystemValidation::parse_string_value("12");
    assert!(res2.is_ok());
    if let Ok(internal) = res2 {
        assert!(internal.id_name.is_none());
        assert_eq!(internal.release, SystemValidationReleaseVersion::Equal("12".to_string()));
    }

    let res3 = SystemValidation::parse_string_value("20.04");
    assert!(res3.is_ok());
    if let Ok(internal) = res3 {
        assert!(internal.id_name.is_none());
        assert_eq!(internal.release, SystemValidationReleaseVersion::Equal("20.04".to_string()));
    }

    let res4 = SystemValidation::parse_string_value("<12");
    assert!(res4.is_ok());
    if let Ok(internal) = res4 {
        assert!(internal.id_name.is_none());
        assert_eq!(internal.release, SystemValidationReleaseVersion::LessThan("12".to_string()));
    }

    let res5 = SystemValidation::parse_string_value("?12");
    assert!(res5.is_err());

    let res6 = SystemValidation::parse_string_value(">=");
    assert!(res6.is_err());
}

#[test]
fn test_parse_multiple_strings_parens1() {
    let res1 = SystemValidation::parse_string_value("(Debian,12)");
    assert!(res1.is_ok());
    if let Ok(internal) = res1 {
        assert_eq!(internal.id_name, Some("Debian".to_string()));
        assert_eq!(internal.release, SystemValidationReleaseVersion::Equal("12".to_string()));
    }

    let res2 = SystemValidation::parse_string_value("(12,Debian)");
    assert!(res2.is_ok());
    if let Ok(internal) = res2 {
        assert_eq!(internal.id_name, Some("Debian".to_string()));
        assert_eq!(internal.release, SystemValidationReleaseVersion::Equal("12".to_string()));
    }

    let res3 = SystemValidation::parse_string_value("(>=12,Debian)");
    assert!(res3.is_ok());
    if let Ok(internal) = res3 {
        assert_eq!(internal.id_name, Some("Debian".to_string()));
        assert_eq!(internal.release, SystemValidationReleaseVersion::GreaterThanOrEqual("12".to_string()));
    }

    let res4 = SystemValidation::parse_string_value("(>=,Debian)");
    assert!(res4.is_err());
}

#[test]
fn test_version_comparisons_single_int1() {
    if let Ok(internal) = SystemValidation::parse_string_value("<12") {
        assert!(internal.release.is_version_okay("11"));
        assert!(!internal.release.is_version_okay("12"));
    } else {
        assert!(false);
    }

    if let Ok(internal) = SystemValidation::parse_string_value("<=12") {
        assert!(internal.release.is_version_okay("11"));
        assert!(internal.release.is_version_okay("12"));
    } else {
        assert!(false);
    }
}

#[test]
fn test_set_param_value_1() {
    let input1 = "something else
myParam oldVal
Something else again";

    let expected1 = "something else
myParam newVal
#myParam oldVal
Something else again";

    assert_eq!(test_modify_helper(input1, "myParam", "newVal"), expected1.to_string());

    let input2 = "something else
myParamSkip oldVal
myParam oldVal
Something else again";

    let expected2 = "something else
myParamSkip oldVal
myParam newVal
#myParam oldVal
Something else again";

    assert_eq!(test_modify_helper(input2, "myParam", "newVal"), expected2.to_string());

    let input3 = "something else
myParamSkip oldVal
#myParam oldVal1
Something else again";

    let expected3 = "something else
myParamSkip oldVal
myParam newVal
#myParam oldVal1
Something else again";

    assert_eq!(test_modify_helper(input3, "myParam", "newVal"), expected3.to_string());

    let input4 = "something else
myParamSkip oldVal
#myParam oldVal1
myParam oldVal2
Something else again";

    let expected4 = "something else
myParamSkip oldVal
#myParam oldVal1
myParam newVal2
#myParam oldVal2
Something else again";

    assert_eq!(test_modify_helper(input4, "myParam", "newVal2"), expected4.to_string());

    let input5 = "something else
    myParamSkip oldVal
    #myParam oldVal1
    myParam oldVal2
    Something else again";

    let expected5 = "something else
    myParamSkip oldVal
    #myParam oldVal1
myParam newVal2
#    myParam oldVal2
    Something else again";

    assert_eq!(test_modify_helper(input5, "myParam", "newVal2"), expected5.to_string());
}

#[test]
fn test_extract_contents1() {
    let res = extract_contents_from_brackets("Access: (0664/-rw-rw-r--)  Uid: ( 1000/   peter)   Gid: ( 1000/   peter)").unwrap();

    assert_eq!(res.len(), 3);
}

#[test]
fn test_extract_stat_details1() {
    let stat_response1 = r#"  File: 11.tif
  Size: 71231369  	Blocks: 139128     IO Block: 4096   regular file
Device: 10301h/66305d	Inode: 3150685     Links: 1
Access: (0664/-rw-rw-r--)  Uid: ( 1000/   peter)   Gid: ( 1000/   peter)
Access: 2021-10-18 23:26:34.847020215 +1300
Modify: 2021-10-18 23:26:34.827018980 +1300
Change: 2021-10-18 23:26:34.827018980 +1300
 Birth: -
      "#;

    let extracted = extract_details_from_stat_output(&stat_response1);

    assert_eq!(extracted, Some(("664".to_string(), "peter".to_string(), "peter".to_string())));
}

#[test]
fn bracket_texts_are_cut_at_byte_offsets() {
    // positions are counted in characters and cut in bytes, as `str` slicing does
    let res = extract_contents_from_brackets("é(ab)").unwrap();
    assert_eq!(res, vec!["(a".to_string()]);
}

#[test]
fn stat_details_with_text_beyond_ascii_after_the_brackets() {
    let out = "Access: (0640/-rw-r-----)  Uid: ( 1000/   peter)   Gid: ( 1000/   staff) é\n";
    assert_eq!(
        extract_details_from_stat_output(out),
        Some(("640".to_string(), "peter".to_string(), "staff".to_string()))
    );
    assert_eq!(file_mode_from_stat(out), Ok(0o640));
}

#[test]
fn stat_output_that_cannot_be_cut_is_refused() {
    assert_eq!(file_mode_from_stat("Access: (é)\n"), Err("the stat output could not be read".to_string()));
    assert_eq!(file_mode_from_stat("Access: )(\n"), Ok(0o644));
    assert_eq!(file_mode_from_stat("Size: 4\n"), Ok(0o644));
}
