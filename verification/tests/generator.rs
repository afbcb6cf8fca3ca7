use generate_did::DidGenerator;
use generate_did::DidGeneratorError;
use generate_did::FsPath;

fn rel_path(parts: &[&str]) -> FsPath {
    FsPath {
        absolute: false,
        components: parts.iter().map(|s| s.to_string()).collect(),
    }
}

fn parts_of(p: &FsPath) -> Vec<String> {
    p.components.clone()
}

fn strings(parts: &[&str]) -> Vec<String> {
    parts.iter().map(|s| s.to_string()).collect()
}

#[test]
fn test_did_generator_creation() {
    let generator = DidGenerator::new(rel_path(&["test_canister"]));
    assert_eq!(generator.canister_name, "test_canister");
}

#[test]
fn test_name_is_last_component() {
    let generator = DidGenerator::new(rel_path(&["src", "foo"]));
    assert_eq!(generator.canister_name, "foo");
}

#[test]
fn test_wasm_file_name() {
    let generator = DidGenerator::new(rel_path(&["src", "foo"]));
    assert_eq!(generator.wasm_file_name(), "foo.wasm");
}

#[test]
fn test_candidate_paths_walk_upward() {
    let generator = DidGenerator::new(rel_path(&["src", "foo"]));
    assert_eq!(
        parts_of(&generator.candidate(0)),
        strings(&["src", "foo", "target", "wasm32-unknown-unknown", "release", "foo.wasm"]),
    );
    assert_eq!(
        parts_of(&generator.candidate(1)),
        strings(&["src", "target", "wasm32-unknown-unknown", "release", "foo.wasm"]),
    );
    assert_eq!(
        parts_of(&generator.candidate(2)),
        strings(&["target", "wasm32-unknown-unknown", "release", "foo.wasm"]),
    );
}

#[test]
fn test_candidate_keeps_absolute_anchor() {
    let generator = DidGenerator::new(FsPath {
        absolute: true,
        components: strings(&["work", "foo"]),
    });
    let candidate = generator.candidate(2);
    assert!(candidate.absolute);
    assert_eq!(
        parts_of(&candidate),
        strings(&["target", "wasm32-unknown-unknown", "release", "foo.wasm"]),
    );
}

#[test]
fn test_did_path() {
    let generator = DidGenerator::new(rel_path(&["src", "foo"]));
    let did = generator.did_path();
    assert!(!did.absolute);
    assert_eq!(parts_of(&did), strings(&["src", "foo", "foo.did"]));
}

#[test]
fn test_locate_first_match() {
    // Matches both at one ancestor up and at the root: the shallower of
    // the two wins, and the canister-relative candidate is never skipped.
    let generator = DidGenerator::new(rel_path(&["a", "b", "c"]));
    let exists = vec![false, true, false, true];
    match generator.find_wasm_file(&exists) {
        Ok(found) => assert_eq!(
            parts_of(&found),
            strings(&["a", "b", "target", "wasm32-unknown-unknown", "release", "c.wasm"]),
        ),
        Err(_) => panic!("a candidate exists, the search must succeed"),
    }
}

#[test]
fn test_locate_prefers_canister_dir() {
    let generator = DidGenerator::new(rel_path(&["a", "b", "c"]));
    let exists = vec![true, true, true, true];
    match generator.find_wasm_file(&exists) {
        Ok(found) => assert_eq!(
            parts_of(&found),
            strings(&["a", "b", "c", "target", "wasm32-unknown-unknown", "release", "c.wasm"]),
        ),
        Err(_) => panic!("a candidate exists, the search must succeed"),
    }
}

#[test]
fn test_locate_exhaustion() {
    let generator = DidGenerator::new(rel_path(&["src", "foo"]));
    let exists = vec![false, false, false];
    match generator.find_wasm_file(&exists) {
        Ok(_) => panic!("no candidate exists, the search must fail"),
        Err(DidGeneratorError::ArtifactNotFound { canister_name, first_tried }) => {
            assert_eq!(canister_name, "foo");
            assert_eq!(
                parts_of(&first_tried),
                strings(&["src", "foo", "target", "wasm32-unknown-unknown", "release", "foo.wasm"]),
            );
        }
        Err(_) => panic!("exhaustion must be reported as ArtifactNotFound"),
    }
}

#[test]
fn test_locate_single_component_dir() {
    // A bare relative directory still has one ancestor: the working
    // directory itself, whose build output is checked last.
    let generator = DidGenerator::new(rel_path(&["foo"]));
    let exists = vec![false, true];
    match generator.find_wasm_file(&exists) {
        Ok(found) => assert_eq!(
            parts_of(&found),
            strings(&["target", "wasm32-unknown-unknown", "release", "foo.wasm"]),
        ),
        Err(_) => panic!("a candidate exists, the search must succeed"),
    }
}
