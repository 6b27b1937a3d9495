use file_transfer::hadoop::{
    apply_file, apply_outline, load_hadoop_config_options, DirectoryReply, FileReply, HadoopFile, HadoopFileCheck,
    HadoopStep, XmlBranch, XmlLeaf, XmlOutline, MAX_HADOOP_CONFIG_FILE_SIZE,
};
use file_transfer::text_map::TextMap;

const SITE: &str = r#"<?xml version="1.0"?>
<configuration>
  <property>
    <name>dfs.client.use.datanode.hostname</name>
    <value>true</value>
  </property>
</configuration>"#;

fn first_check(directory: &str) -> HadoopFileCheck {
    load_hadoop_config_options(directory, true).unwrap().observed(DirectoryReply::Directory).unwrap()
}

fn value<'a>(options: &'a TextMap<String>, key: &str) -> Option<&'a str> {
    options.get(key).map(String::as_str)
}

fn message<T: std::fmt::Debug>(result: Result<T, file_transfer::models::FileManagerError>) -> String {
    let error = result.unwrap_err();
    assert_eq!(error.code, "configuration");
    error.message
}

fn leaf(name: &str, text: Option<&str>) -> XmlLeaf {
    XmlLeaf { name: name.to_string(), text: text.map(str::to_string) }
}

#[test]
fn hadoop_config_directory_is_absolute_bounded_and_structured() {
    let check = first_check("/etc/hadoop");
    assert_eq!(check.file, HadoopFile::CoreSite);
    assert_eq!(check.file.file_name(), "core-site.xml");
    let check = match check.observed(FileReply::Missing).unwrap() {
        HadoopStep::Check(check) => check,
        other => panic!("{other:?}"),
    };
    assert_eq!(check.file.file_name(), "hdfs-site.xml");
    let length = SITE.len() as u64;
    let read = match check.observed(FileReply::Found { is_file: true, length }).unwrap() {
        HadoopStep::Read(read) => read,
        other => panic!("{other:?}"),
    };
    let options = match read.content(Ok(SITE.as_bytes().to_vec())).unwrap() {
        HadoopStep::Loaded(options) => options,
        other => panic!("{other:?}"),
    };
    assert_eq!(value(&options, "dfs.client.use.datanode.hostname"), Some("true"));
    assert_eq!(load_hadoop_config_options("relative/config", false).unwrap_err().code, "configuration");
}

#[test]
fn hadoop_directories_are_refused_for_what_they_are() {
    assert_eq!(message(load_hadoop_config_options(" ", true)), "Hadoop config directory is required");
    assert_eq!(
        message(load_hadoop_config_options("conf", false)),
        "The Hadoop config directory must be an absolute path"
    );
    let open = || load_hadoop_config_options("/conf", true).unwrap();
    assert_eq!(
        message(open().observed(DirectoryReply::Inaccessible)),
        "The Hadoop config directory is not accessible"
    );
    assert_eq!(message(open().observed(DirectoryReply::Other)), "The Hadoop config path must be a directory");
}

#[test]
fn hadoop_files_are_refused_for_what_they_are() {
    assert_eq!(
        message(first_check("/conf").observed(FileReply::Inaccessible)),
        "A Hadoop config file is not accessible"
    );
    for reply in [
        FileReply::Found { is_file: false, length: 1 },
        FileReply::Found { is_file: true, length: MAX_HADOOP_CONFIG_FILE_SIZE + 1 },
    ] {
        assert_eq!(message(first_check("/conf").observed(reply)), "A Hadoop config file is invalid or too large");
    }
    let check = match first_check("/conf").observed(FileReply::Missing).unwrap() {
        HadoopStep::Check(check) => check,
        other => panic!("{other:?}"),
    };
    assert_eq!(
        message(check.observed(FileReply::Missing)),
        "The Hadoop config directory must contain core-site.xml or hdfs-site.xml"
    );
    let read = match first_check("/conf").observed(FileReply::Found { is_file: true, length: 1 }).unwrap() {
        HadoopStep::Read(read) => read,
        other => panic!("{other:?}"),
    };
    assert_eq!(message(read.content(Err("gone".to_string()))), "A Hadoop config file is not accessible");
}

#[test]
fn hadoop_file_contents_are_refused_for_what_they_are() {
    let apply = |bytes: &[u8]| message(apply_file(bytes.to_vec(), TextMap::new()));
    assert_eq!(
        apply(&vec![b' '; MAX_HADOOP_CONFIG_FILE_SIZE as usize + 1]),
        "A Hadoop config file is invalid or too large"
    );
    assert_eq!(apply(&[0xff, 0xfe]), "A Hadoop config file is not valid UTF-8");
    assert_eq!(apply(b"<configuration>"), "A Hadoop config file contains invalid XML");
    assert_eq!(apply(b"<config/>"), "A Hadoop config file has an invalid root element");
}

#[test]
fn later_hadoop_files_win() {
    let core = b"<configuration><property><name>a</name><value>1</value></property>\
        <property><name>b</name><value>2</value></property></configuration>";
    let hdfs = b"<configuration><property><name> a </name><value> 3 </value></property></configuration>";
    let options = apply_file(core.to_vec(), TextMap::new()).unwrap();
    let options = apply_file(hdfs.to_vec(), options).unwrap();
    assert_eq!(value(&options, "a"), Some("3"));
    assert_eq!(value(&options, "b"), Some("2"));
}

#[test]
fn properties_need_a_name_and_a_value() {
    let outline = XmlOutline {
        name: "configuration".to_string(),
        children: vec![
            XmlBranch {
                name: "property".to_string(),
                children: vec![leaf("", Some("text")), leaf("name", Some(" n ")), leaf("value", Some(""))],
            },
            XmlBranch { name: "property".to_string(), children: vec![leaf("name", Some("x"))] },
            XmlBranch {
                name: "property".to_string(),
                children: vec![leaf("name", Some(" ")), leaf("value", Some("v"))],
            },
            XmlBranch {
                name: "property".to_string(),
                children: vec![leaf("name", None), leaf("name", Some("second")), leaf("value", Some("v"))],
            },
            XmlBranch {
                name: "setting".to_string(),
                children: vec![leaf("name", Some("y")), leaf("value", Some("v"))],
            },
            XmlBranch {
                name: "property".to_string(),
                children: vec![
                    leaf("value", Some("first")),
                    leaf("value", Some("second")),
                    leaf("name", Some("z")),
                ],
            },
        ],
    };
    let options = apply_outline(&outline, TextMap::new()).unwrap();
    assert_eq!(options.len(), 2);
    assert_eq!(value(&options, "n"), Some(""));
    assert_eq!(value(&options, "z"), Some("first"));
}
