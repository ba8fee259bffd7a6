use hashall::format::PrintFormat;
use hashall::hasher::{Algorithm, BufHash, BufHashFactory, Digester};
use hashall::pipeline::{run_units, Unit};
use hashall::walk::join_path;

const MD5_EMPTY: &str = "d41d8cd98f00b204e9800998ecf8427e";
const MD5_ABC: &str = "900150983cd24fb0d6963f7d28e17f72";
const SHA1_ABC: &str = "a9993e364706816aba3e25717850c26c9cd0d89d";

#[test]
fn md5_known_vectors() {
    let mut hash = BufHash::new(1024, PrintFormat::Sum, Algorithm::Md5);
    let line = hash.finish_line("empty");
    assert_eq!(line, format!("{}  empty", MD5_EMPTY));
    hash.feed(b"abc");
    let line = hash.finish_line("abc.txt");
    assert_eq!(line, format!("{}  abc.txt", MD5_ABC));
}

#[test]
fn sha1_known_vector() {
    let mut hash = BufHash::new(1024, PrintFormat::Sum, Algorithm::Sha1);
    hash.feed(b"abc");
    let line = hash.finish_line("abc.txt");
    assert_eq!(line, format!("{}  abc.txt", SHA1_ABC));
}

#[test]
fn digester_chunking_is_invisible() {
    // Feeding content in one chunk or many yields the same digest.
    let mut one = Digester::new(Algorithm::Md5);
    one.update(b"abc");
    let d1 = one.finalize_reset();
    let mut many = Digester::new(Algorithm::Md5);
    many.update(b"a");
    many.update(b"");
    many.update(b"bc");
    let d2 = many.finalize_reset();
    assert_eq!(d1, d2);
    assert_eq!(d1.len(), 16);
}

#[test]
fn finalize_resets_in_place() {
    // One digester hashes the same content twice: identical digests, so
    // the reset clears all internal state.
    let mut hash = BufHash::new(8, PrintFormat::Sum, Algorithm::Md5);
    hash.feed(b"same content");
    let first = hash.finish_line("twice.txt");
    hash.feed(b"same content");
    let second = hash.finish_line("twice.txt");
    assert_eq!(first, second);
}

#[test]
fn factory_configures_workers() {
    let factory = BufHashFactory::new(4096, PrintFormat::Csv, Algorithm::Sha1);
    let hash = factory.create();
    assert_eq!(hash.buffer_size(), 4096);
    // Two workers built from one factory behave identically.
    let mut a = factory.create();
    let mut b = factory.create();
    a.feed(b"xyz");
    b.feed(b"xyz");
    assert_eq!(a.finish_line("l"), b.finish_line("l"));
}

#[test]
fn run_emits_csv_header_first() {
    let mut hash = BufHash::new(64, PrintFormat::Csv, Algorithm::Md5);
    let units = vec![Unit { label: String::from("abc.txt"), data: b"abc".to_vec() }];
    let out = run_units(&mut hash, &units);
    assert_eq!(out.len(), 2);
    assert_eq!(out[0], "hash,filename");
    assert_eq!(out[1], format!("{},abc.txt", MD5_ABC));
}

#[test]
fn run_sum_has_no_header() {
    let mut hash = BufHash::new(64, PrintFormat::Sum, Algorithm::Md5);
    let units = vec![Unit { label: String::from("abc.txt"), data: b"abc".to_vec() }];
    let out = run_units(&mut hash, &units);
    assert_eq!(out, vec![format!("{}  abc.txt", MD5_ABC)]);
}

#[test]
fn overlapping_roots_hash_identically() {
    // The same file reached twice in one run gets the same digest value
    // both times.
    let mut hash = BufHash::new(64, PrintFormat::Sum, Algorithm::Md5);
    let unit = Unit { label: String::from("dup.txt"), data: b"abc".to_vec() };
    let units = vec![unit.clone(), unit];
    let out = run_units(&mut hash, &units);
    assert_eq!(out.len(), 2);
    assert_eq!(out[0], out[1]);
}

#[test]
fn output_is_order_independent_as_a_multiset() {
    // The same units in two different orders, as two workers might finish
    // them, yield the same lines up to order.
    let units = vec![
        Unit { label: String::from("a"), data: b"abc".to_vec() },
        Unit { label: String::from("b"), data: b"".to_vec() },
        Unit { label: String::from("c"), data: b"xyz".to_vec() },
    ];
    let reordered = vec![units[2].clone(), units[0].clone(), units[1].clone()];
    let mut hash = BufHash::new(64, PrintFormat::Sum, Algorithm::Md5);
    let mut first = run_units(&mut hash, &units);
    let mut second = run_units(&mut hash, &reordered);
    assert_ne!(first, second);
    first.sort();
    second.sort();
    assert_eq!(first, second);
}

#[test]
fn pool_split_emits_the_same_lines() {
    // Two workers, each with its own digester, splitting the units between
    // them, together emit the same lines as one worker hashing them all.
    let units = vec![
        Unit { label: String::from("a"), data: b"abc".to_vec() },
        Unit { label: String::from("b"), data: b"".to_vec() },
        Unit { label: String::from("c"), data: b"xyz".to_vec() },
    ];
    let mut solo = BufHash::new(64, PrintFormat::Sum, Algorithm::Md5);
    let mut all = run_units(&mut solo, &units);
    let mut w1 = BufHash::new(64, PrintFormat::Sum, Algorithm::Md5);
    let mut w2 = BufHash::new(64, PrintFormat::Sum, Algorithm::Md5);
    let mut combined = run_units(&mut w1, &vec![units[2].clone()]);
    combined.extend(run_units(&mut w2, &vec![units[0].clone(), units[1].clone()]));
    all.sort();
    combined.sort();
    assert_eq!(all, combined);
}

#[test]
fn archive_entry_lines_in_stored_order() {
    // An expanded archive reports each stored entry under the container's
    // display path, in stored order, with the digest of the entry content.
    let units = vec![
        Unit { label: join_path("archive.zip", "file.txt"), data: b"abc".to_vec() },
        Unit { label: join_path("archive.zip", "directory/file.txt"), data: b"".to_vec() },
    ];
    let mut hash = BufHash::new(64, PrintFormat::Sum, Algorithm::Md5);
    let out = run_units(&mut hash, &units);
    assert_eq!(
        out,
        vec![
            format!("{}  archive.zip/file.txt", MD5_ABC),
            format!("{}  archive.zip/directory/file.txt", MD5_EMPTY),
        ]
    );
}

#[test]
fn content_identity_across_containers() {
    // The digest text for the same content is one and the same whether the
    // unit is a bare file or an entry inside a container of any kind.
    let mut hash = BufHash::new(64, PrintFormat::Sum, Algorithm::Md5);
    let direct = vec![Unit { label: String::from("file.txt"), data: b"abc".to_vec() }];
    let in_zip = vec![Unit { label: join_path("a.zip", "file.txt"), data: b"abc".to_vec() }];
    let in_tar = vec![Unit { label: join_path("a.tar", "file.txt"), data: b"abc".to_vec() }];
    let d = run_units(&mut hash, &direct);
    let z = run_units(&mut hash, &in_zip);
    let t = run_units(&mut hash, &in_tar);
    let digest_of = |line: &str| line.split_whitespace().next().unwrap().to_string();
    assert_eq!(digest_of(&d[0]), digest_of(&z[0]));
    assert_eq!(digest_of(&z[0]), digest_of(&t[0]));
}

#[test]
fn csv_run_with_no_units_is_header_only() {
    let mut hash = BufHash::new(64, PrintFormat::Csv, Algorithm::Md5);
    let out = run_units(&mut hash, &Vec::new());
    assert_eq!(out, vec!["hash,filename"]);
}
