use brr::exclusion::ExclusionRules;
use brr::hash::{hash_files, repo_hash, SourceFile, TreeEntry};
use crypto::digest::Digest;

fn entry(path: &str, content: &str) -> TreeEntry {
    TreeEntry {
        path: path.as_bytes().to_vec(),
        content: content.as_bytes().to_vec(),
    }
}

fn file(path: &str, content: &str) -> SourceFile {
    SourceFile {
        rel_path: path.to_string(),
        is_dir: false,
        content: content.as_bytes().to_vec(),
    }
}

fn sha3_hex(data: &[u8]) -> String {
    let mut h = crypto::sha3::Sha3::sha3_256();
    h.input(data);
    h.result_str()
}

#[test]
fn empty_tree_digest_is_sha3_of_nothing() {
    let digest = repo_hash(vec![]);
    assert_eq!(digest.len(), 64);
    assert_eq!(
        digest,
        "a7ffc6f8bf1ed76651c14756a061d662f580ff4de43b49fa82d80a4b80f8434a"
    );
}

#[test]
fn digest_is_sha3_of_descending_concatenation() {
    // descending lexicographic on the path: b.txt comes before a.txt
    let digest = repo_hash(vec![entry("a.txt", "one"), entry("b.txt", "two")]);
    let expected = sha3_hex(b"b.txttwoa.txtone");
    assert_eq!(digest, expected);
}

fn permutations(n: usize) -> Vec<Vec<usize>> {
    if n == 0 {
        return vec![vec![]];
    }
    let mut out = Vec::new();
    for rest in permutations(n - 1) {
        for pos in 0..=rest.len() {
            let mut p = rest.clone();
            p.insert(pos, n - 1);
            out.push(p);
        }
    }
    out
}

#[test]
fn test_with_different_permutations() {
    let names_and_contents: Vec<(&str, &str)> = vec![
        ("alpha.flargle", "Some *() text here; () => {}"),
        ("231asb21.json", "ablawefome text here; () => {}"),
        ("zed.bargle", "ac ahhhhh here; () => {}"),
        ("derga.azzz", "aaaa text here; () => {}"),
        ("derga", "Some text here; () => {}"),
        ("smarshmellow", "Some text here; () => {}"),
    ];

    let mut hashes: Vec<String> = vec![];
    for p in permutations(names_and_contents.len()) {
        let entries: Vec<TreeEntry> = p
            .iter()
            .map(|&i| entry(names_and_contents[i].0, names_and_contents[i].1))
            .collect();
        hashes.push(repo_hash(entries));
    }

    assert!(hashes.iter().all(|h| h == &hashes[0]));
}

#[test]
fn identical_independent_directories_match() {
    // two directories holding {"x.txt": "hi"}, built independently and
    // enumerated in different orders, are indistinguishable by fingerprint
    let a = vec![entry("x.txt", "hi")];
    let b = vec![entry("x.txt", "hi")];
    assert_eq!(repo_hash(a), repo_hash(b));

    let c = vec![entry("x.txt", "hi"), entry("y.txt", "yo")];
    let d = vec![entry("y.txt", "yo"), entry("x.txt", "hi")];
    assert_eq!(repo_hash(c), repo_hash(d));
}

#[test]
fn one_byte_change_changes_digest() {
    let before = repo_hash(vec![entry("x.txt", "hi"), entry("y.txt", "yo")]);
    let after = repo_hash(vec![entry("x.txt", "hj"), entry("y.txt", "yo")]);
    assert_ne!(before, after);
}

#[test]
fn ignored_files_never_reach_digest() {
    let rules = ExclusionRules {
        lines: vec!["*.log".to_string()],
    };
    let base = vec![file("x.txt", "hi"), file("src/main.rs", "fn main() {}")];
    let mut with_ignored = vec![
        file("x.txt", "hi"),
        file("debug.log", "noise"),
        file("src/main.rs", "fn main() {}"),
    ];
    assert_eq!(hash_files(&base, &rules), hash_files(&with_ignored, &rules));
    // removing it again changes nothing either
    with_ignored.remove(1);
    assert_eq!(hash_files(&base, &rules), hash_files(&with_ignored, &rules));
}

#[test]
fn metadata_directory_never_reaches_digest() {
    let rules = ExclusionRules { lines: vec![] };
    let base = vec![file("x.txt", "hi")];
    let with_meta = vec![
        file("x.txt", "hi"),
        file(".git/config", "[core]"),
        file(".git", ""),
    ];
    assert_eq!(hash_files(&base, &rules), hash_files(&with_meta, &rules));
}

#[test]
fn whitelisted_file_reaches_digest() {
    let rules = ExclusionRules {
        lines: vec!["*.log".to_string(), "!keep.log".to_string()],
    };
    let without = vec![file("x.txt", "hi")];
    let with_kept = vec![file("x.txt", "hi"), file("keep.log", "kept")];
    assert_ne!(hash_files(&without, &rules), hash_files(&with_kept, &rules));
    // and the kept file is hashed like any included file
    let plain = ExclusionRules { lines: vec![] };
    assert_eq!(hash_files(&with_kept, &rules), hash_files(&with_kept, &plain));
}

#[test]
fn tree_digest_matches_entry_digest() {
    // the tree pipeline feeds exactly the included files to the entry digest
    let rules = ExclusionRules { lines: vec![] };
    let files = vec![file("x.txt", "hi"), file("y.txt", "yo")];
    let entries = vec![entry("x.txt", "hi"), entry("y.txt", "yo")];
    assert_eq!(hash_files(&files, &rules), repo_hash(entries));
}

#[test]
fn directories_never_reach_digest() {
    let rules = ExclusionRules { lines: vec![] };
    let base = vec![file("x.txt", "hi")];
    let with_dir = vec![
        file("x.txt", "hi"),
        SourceFile {
            rel_path: "src".to_string(),
            is_dir: true,
            content: vec![],
        },
    ];
    assert_eq!(hash_files(&base, &rules), hash_files(&with_dir, &rules));
}
