use amber::postprocessor::PostProcessor;

#[test]
fn test_postprocessor_new_and_name() {
    let pp = PostProcessor::new("test_pp", "echo");

    assert_eq!(pp.name, "test_pp");
    assert_eq!(pp.bin, "echo");
}

#[test]
fn test_postprocessor_get_default() {
    let processors = PostProcessor::get_default();
    assert!(
        !processors.is_empty(),
        "get_default should return at least one processor"
    );
}

#[test]
fn default_postprocessors_in_their_order() {
    let processors = PostProcessor::get_default();
    let names: Vec<&str> = processors.iter().map(|p| p.name.as_str()).collect();
    assert_eq!(names, vec!["shfmt", "bshchk"]);
    let bins: Vec<&str> = processors.iter().map(|p| p.bin.as_str()).collect();
    assert_eq!(bins, vec!["shfmt", "bshchk"]);
}

fn kept(filters: &[&str]) -> Vec<String> {
    let filters: Vec<String> = filters.iter().map(|f| f.to_string()).collect();
    PostProcessor::filter_default(&filters).into_iter().map(|p| p.name).collect()
}

#[test]
fn test_postprocessor_filter_default() {
    let processors = PostProcessor::get_default();
    let filter = vec!["nonexistent".to_string()];
    let filtered = PostProcessor::filter_default(&filter);
    assert_eq!(filtered.len(), processors.len());
}

#[test]
fn test_postprocessor_filter_default_removes_matching() {
    let filter = vec!["bshchk".to_string()];
    let filtered = PostProcessor::filter_default(&filter);
    let bshchk_exists = filtered.iter().any(|pp| pp.name == "bshchk");
    assert!(!bshchk_exists, "bshchk should be filtered out");
}

#[test]
fn filter_takes_wildcards() {
    assert_eq!(kept(&[]), vec!["shfmt", "bshchk"]);
    assert_eq!(kept(&["b*"]), vec!["shfmt"]);
    assert_eq!(kept(&["?hfmt"]), vec!["bshchk"]);
    assert_eq!(kept(&["*sh*"]), Vec::<String>::new());
    assert_eq!(kept(&["*"]), Vec::<String>::new());
    assert_eq!(kept(&["shfmt", "bshchk"]), Vec::<String>::new());
    assert_eq!(kept(&["nothing", "*chk"]), vec!["shfmt"]);
}

#[test]
fn filter_matches_the_whole_name() {
    assert_eq!(kept(&["shfm"]), vec!["shfmt", "bshchk"]);
    assert_eq!(kept(&["hfmt"]), vec!["shfmt", "bshchk"]);
    assert_eq!(kept(&["shfmt?"]), vec!["shfmt", "bshchk"]);
    assert_eq!(kept(&["????"]), vec!["shfmt", "bshchk"]);
    assert_eq!(kept(&["?????"]), vec!["bshchk"]);
    assert_eq!(kept(&[""]), vec!["shfmt", "bshchk"]);
}

#[test]
fn kept_postprocessors_keep_their_binary() {
    let filtered = PostProcessor::filter_default(&vec!["sh*".to_string()]);
    assert_eq!(filtered.len(), 1);
    assert_eq!(filtered[0].name, "bshchk");
    assert_eq!(filtered[0].bin, "bshchk");
}
