use file_checksum::{
    check_valid_output_file_type, process_checksum, ChecksumError, ChecksumType, OutputLog,
    SourceFile,
};
use sha1::Sha1;
use sha2::{Digest, Sha256};

fn fake_file_path() -> SourceFile {
    SourceFile {
        path: String::from("data/test.txt"),
        is_dir: false,
        name: Some(String::from("test.txt")),
        content: Some(b"This is a test".to_vec()),
    }
}

fn fake_file_path_2() -> SourceFile {
    SourceFile {
        path: String::from("data/test2.txt"),
        is_dir: false,
        name: Some(String::from("test2.txt")),
        content: Some(b"This is another test".to_vec()),
    }
}

fn get_checksum(file: &SourceFile, checksum_type: ChecksumType) -> String {
    let bytes = file.content.clone().unwrap();
    match checksum_type {
        ChecksumType::Sha256 => {
            let mut hasher = Sha256::new();
            hasher.update(bytes);
            hex::encode(hasher.finalize())
        }
        ChecksumType::Sha1 => {
            let mut hasher = Sha1::new();
            hasher.update(bytes);
            hex::encode(hasher.finalize())
        }
        ChecksumType::Md5 => format!("{:?}", md5::compute(bytes)),
    }
}

/// A log that stands for an output file which does not exist yet.
fn fresh_output(output_path: &str) -> OutputLog {
    check_valid_output_file_type(output_path).unwrap();
    OutputLog::new()
}

/// Processes one file and carries out the write on the log, as a run does
/// on the output file.
fn process_into(
    file: &SourceFile,
    output_file: &mut OutputLog,
    checksum_type: &ChecksumType,
    overwrite: bool,
    verbose: bool,
) -> Result<(), ChecksumError> {
    let outcome = process_checksum(
        file,
        &Some(output_file.found()),
        checksum_type,
        overwrite,
        verbose,
    )?;
    output_file.write(outcome.write.unwrap(), &outcome.line)
}

fn read_to_string(output_file: &OutputLog) -> String {
    output_file.content.clone().unwrap()
}

#[test]
fn check_valid_output_file_type_success() {
    assert!(check_valid_output_file_type("test.txt").is_ok());
}

#[test]
fn check_invalid_output_file_type() {
    assert!(check_valid_output_file_type("test.csv").is_err());
}

#[test]
fn process_checksum_directory_error() {
    let dir = SourceFile {
        path: String::from("/tmp/some_dir"),
        is_dir: true,
        name: Some(String::from("some_dir")),
        content: None,
    };
    assert!(process_checksum(&dir, &None, &ChecksumType::Sha256, false, false).is_err());
}

#[test]
fn process_checksum_bad_path() {
    let dir = SourceFile {
        path: String::from("bad"),
        is_dir: false,
        name: Some(String::from("bad")),
        content: None,
    };
    assert!(process_checksum(&dir, &None, &ChecksumType::Sha256, false, false).is_err());
}

#[test]
fn generate_md5_file() {
    let test_file = fake_file_path();
    let mut output_file = fresh_output("output.txt");

    process_into(&test_file, &mut output_file, &ChecksumType::Md5, false, false).unwrap();

    assert!(output_file.found().exists);

    let checksum = get_checksum(&test_file, ChecksumType::Md5);
    let result = read_to_string(&output_file);

    assert!(result.contains(&checksum));
}

#[test]
fn generate_md5_file_directory_overwrite() {
    let test_file_1 = fake_file_path();
    let test_file_2 = fake_file_path_2();
    let mut output_file = fresh_output("output.txt");

    process_into(&test_file_1, &mut output_file, &ChecksumType::Md5, true, false).unwrap();

    assert!(output_file.found().exists);

    let checksum_1 = get_checksum(&test_file_1, ChecksumType::Md5);
    let result_1 = read_to_string(&output_file);

    assert!(result_1.contains(&checksum_1));

    process_into(&test_file_2, &mut output_file, &ChecksumType::Md5, true, false).unwrap();

    assert!(output_file.found().exists);

    let checksum_2 = get_checksum(&test_file_2, ChecksumType::Md5);
    let result_2 = read_to_string(&output_file);

    assert!(!result_2.contains(&checksum_1));
    assert!(result_2.contains(&checksum_2));
}

#[test]
fn generate_md5_file_directory_no_overwrite() {
    let test_file_1 = fake_file_path();
    let test_file_2 = fake_file_path_2();
    let mut output_file = fresh_output("output.txt");

    process_into(&test_file_1, &mut output_file, &ChecksumType::Md5, false, false).unwrap();

    process_into(&test_file_2, &mut output_file, &ChecksumType::Md5, false, false).unwrap();

    assert!(output_file.found().exists);

    let checksum_1 = get_checksum(&test_file_1, ChecksumType::Md5);
    let checksum_2 = get_checksum(&test_file_2, ChecksumType::Md5);
    let result = read_to_string(&output_file);

    assert!(result.contains(&checksum_1));
    assert!(result.contains(&checksum_2));
}

#[test]
fn generate_sha256_file() {
    let test_file = fake_file_path();
    let mut output_file = fresh_output("output.txt");

    process_into(&test_file, &mut output_file, &ChecksumType::Sha256, false, false).unwrap();

    assert!(output_file.found().exists);

    let checksum = get_checksum(&test_file, ChecksumType::Sha256);
    let result = read_to_string(&output_file);

    assert!(result.contains(&checksum));
}

#[test]
fn generate_sha256_file_directory_overwrite() {
    let test_file_1 = fake_file_path();
    let test_file_2 = fake_file_path_2();
    let mut output_file = fresh_output("output.txt");

    process_into(&test_file_1, &mut output_file, &ChecksumType::Sha256, true, false).unwrap();

    assert!(output_file.found().exists);

    let checksum_1 = get_checksum(&test_file_1, ChecksumType::Sha256);
    let result_1 = read_to_string(&output_file);

    assert!(result_1.contains(&checksum_1));

    process_into(&test_file_2, &mut output_file, &ChecksumType::Sha256, true, false).unwrap();

    assert!(output_file.found().exists);

    let checksum_2 = get_checksum(&test_file_2, ChecksumType::Sha256);
    let result_2 = read_to_string(&output_file);

    assert!(!result_2.contains(&checksum_1));
    assert!(result_2.contains(&checksum_2));
}

#[test]
fn generate_sha256_file_directory_no_overwrite() {
    let test_file_1 = fake_file_path();
    let test_file_2 = fake_file_path_2();
    let mut output_file = fresh_output("output.txt");

    process_into(&test_file_1, &mut output_file, &ChecksumType::Sha256, false, false).unwrap();

    process_into(&test_file_2, &mut output_file, &ChecksumType::Sha256, false, false).unwrap();

    assert!(output_file.found().exists);

    let checksum_1 = get_checksum(&test_file_1, ChecksumType::Sha256);
    let checksum_2 = get_checksum(&test_file_2, ChecksumType::Sha256);
    let result = read_to_string(&output_file);

    assert!(result.contains(&checksum_1));
    assert!(result.contains(&checksum_2));
}

#[test]
fn generate_sha1_file() {
    let test_file = fake_file_path();
    let mut output_file = fresh_output("output.txt");

    process_into(&test_file, &mut output_file, &ChecksumType::Sha1, false, false).unwrap();

    assert!(output_file.found().exists);

    let checksum = get_checksum(&test_file, ChecksumType::Sha1);
    let result = read_to_string(&output_file);

    assert!(result.contains(&checksum));
}

#[test]
fn generate_sha1_file_directory_overwrite() {
    let test_file_1 = fake_file_path();
    let test_file_2 = fake_file_path_2();
    let mut output_file = fresh_output("output.txt");

    process_into(&test_file_1, &mut output_file, &ChecksumType::Sha1, true, false).unwrap();

    assert!(output_file.found().exists);

    let checksum_1 = get_checksum(&test_file_1, ChecksumType::Sha1);
    let result_1 = read_to_string(&output_file);

    assert!(result_1.contains(&checksum_1));

    process_into(&test_file_2, &mut output_file, &ChecksumType::Sha1, true, false).unwrap();

    assert!(output_file.found().exists);

    let checksum_2 = get_checksum(&test_file_2, ChecksumType::Sha1);
    let result_2 = read_to_string(&output_file);

    assert!(!result_2.contains(&checksum_1));
    assert!(result_2.contains(&checksum_2));
}

#[test]
fn generate_sha1_file_directory_no_overwrite() {
    let test_file_1 = fake_file_path();
    let test_file_2 = fake_file_path_2();
    let mut output_file = fresh_output("output.txt");

    process_into(&test_file_1, &mut output_file, &ChecksumType::Sha1, false, false).unwrap();

    process_into(&test_file_2, &mut output_file, &ChecksumType::Sha1, false, false).unwrap();

    assert!(output_file.found().exists);

    let checksum_1 = get_checksum(&test_file_1, ChecksumType::Sha1);
    let checksum_2 = get_checksum(&test_file_2, ChecksumType::Sha1);
    let result = read_to_string(&output_file);

    assert!(result.contains(&checksum_1));
    assert!(result.contains(&checksum_2));
}
