//! The client options of an HDFS cluster, read from the files of a Hadoop
//! configuration directory.
use crate::endpoint;
use crate::endpoint::trim;
use crate::endpoint::validate_required;
use crate::models;
use crate::models::FileManagerError;
use crate::text;
use crate::text::same_text;
use crate::text_map;
use crate::text_map::TextMap;
use vstd::prelude::*;
use vstd::utf8::*;

verus! {

/// The longest file that is read.
pub const MAX_HADOOP_CONFIG_FILE_SIZE: u64 = 1048576;

/// A parse error of the `roxmltree` crate.
#[verifier::external_type_specification]
#[verifier::external_body]
pub struct ExXmlError(roxmltree::Error);

/// A node two levels below the root element: the name of its tag, empty where
/// it is no element, and its text.
#[derive(Debug)]
pub struct XmlLeaf {
    pub name: String,
    pub text: Option<String>,
}

/// A node one level below the root element: the name of its tag, empty where it
/// is no element, and its children.
#[derive(Debug)]
pub struct XmlBranch {
    pub name: String,
    pub children: Vec<XmlLeaf>,
}

/// The upper three levels of a document: the name of the root element's tag,
/// and its children.
#[derive(Debug)]
pub struct XmlOutline {
    pub name: String,
    pub children: Vec<XmlBranch>,
}

/// What an [`XmlLeaf`] says.
#[verifier::ext_equal]
pub struct LeafView {
    pub name: Seq<char>,
    pub text: Option<Seq<char>>,
}

/// What an [`XmlBranch`] says.
#[verifier::ext_equal]
pub struct BranchView {
    pub name: Seq<char>,
    pub children: Seq<LeafView>,
}

/// What an [`XmlOutline`] says.
#[verifier::ext_equal]
pub struct OutlineView {
    pub name: Seq<char>,
    pub children: Seq<BranchView>,
}

impl View for XmlLeaf {
    type V = LeafView;

    open spec fn view(&self) -> LeafView {
        LeafView { name: self.name@, text: text::optional_text(self.text) }
    }
}

impl View for XmlBranch {
    type V = BranchView;

    open spec fn view(&self) -> BranchView {
        BranchView {
            name: self.name@,
            children: Seq::new(self.children@.len(), |i: int| self.children@[i]@),
        }
    }
}

impl View for XmlOutline {
    type V = OutlineView;

    open spec fn view(&self) -> OutlineView {
        OutlineView {
            name: self.name@,
            children: Seq::new(self.children@.len(), |i: int| self.children@[i]@),
        }
    }
}

/// The upper levels of a document, where it is one.
pub uninterp spec fn outline_of(content: Seq<char>) -> Option<OutlineView>;

/// `roxmltree::Document::parse`, and the nodes of its two upper levels below the
/// root element, each with the local name of its tag and its first text. What
/// comes back is a function of the text; which one is not stated.
#[verifier::external_body]
fn parse_outline(content: &str) -> (parsed: Result<XmlOutline, roxmltree::Error>)
    ensures
        match parsed {
            Ok(outline) => outline_of(content@) == Some(outline@),
            Err(_) => outline_of(content@) is None,
        },
{
    let document = roxmltree::Document::parse(content)?;
    let root = document.root_element();
    let leaf = |node: roxmltree::Node| XmlLeaf {
        name: node.tag_name().name().to_owned(),
        text: node.text().map(str::to_owned),
    };
    let branch = |node: roxmltree::Node| XmlBranch {
        name: node.tag_name().name().to_owned(),
        children: node.children().map(leaf).collect(),
    };
    Ok(XmlOutline { name: root.tag_name().name().to_owned(), children: root.children().map(branch).collect() })
}

/// `String::from_utf8` of the standard library: the text that the bytes encode,
/// where they are UTF-8.
#[verifier::external_body]
fn text_of(bytes: Vec<u8>) -> (decoded: Option<String>)
    ensures
        match decoded {
            Some(content) => valid_utf8(bytes@) && content@ == decode_utf8(bytes@),
            None => !valid_utf8(bytes@),
        },
{
    String::from_utf8(bytes).ok()
}

/// The first child with a name.
pub open spec fn first_named(children: Seq<LeafView>, name: Seq<char>) -> Option<LeafView>
    decreases children.len(),
{
    if children.len() == 0 {
        None
    } else if children[0].name == name {
        Some(children[0])
    } else {
        first_named(children.drop_first(), name)
    }
}

/// The trimmed text of the first child with a name.
pub open spec fn text_named(children: Seq<LeafView>, name: Seq<char>) -> Option<Seq<char>> {
    match first_named(children, name) {
        Some(child) => match child.text {
            Some(content) => Some(endpoint::trimmed(content)),
            None => None,
        },
        None => None,
    }
}

/// The option that a child of the root element sets: a property with a name
/// that is not empty, and a value.
pub open spec fn property_in(branch: BranchView) -> Option<(Seq<char>, Seq<char>)> {
    if branch.name != "property"@ {
        None
    } else {
        match (text_named(branch.children, "name"@), text_named(branch.children, "value"@)) {
            (Some(name), Some(value)) => if name.len() > 0 {
                Some((name, value))
            } else {
                None
            },
            _ => None,
        }
    }
}

/// The options after some children of the root element: a later property
/// replaces an earlier one of its name.
pub open spec fn options_with(
    options: Map<Seq<char>, Seq<char>>,
    branches: Seq<BranchView>,
) -> Map<Seq<char>, Seq<char>>
    decreases branches.len(),
{
    if branches.len() == 0 {
        options
    } else {
        let before = options_with(options, branches.drop_last());
        match property_in(branches.last()) {
            Some(property) => before.insert(property.0, property.1),
            None => before,
        }
    }
}

/// What a file without the root element of a configuration is refused with.
pub open spec fn root_error() -> models::ManagerErrorView {
    models::configuration_error("A Hadoop config file has an invalid root element"@)
}

fn text_of_first(children: &Vec<XmlLeaf>, name: &str) -> (found: Option<String>)
    ensures
        text::optional_text(found) == text_named(Seq::new(children@.len(), |i: int| children@[i]@), name@),
{
    let ghost views = Seq::new(children@.len(), |i: int| children@[i]@);
    let mut at: usize = 0;
    assert(views.skip(0) =~= views);
    while at < children.len()
        invariant
            at <= children@.len(),
            views == Seq::new(children@.len(), |i: int| children@[i]@),
            first_named(views, name@) == first_named(views.skip(at as int), name@),
        decreases children@.len() - at,
    {
        assert(views.skip(at as int)[0] == children@[at as int]@);
        if same_text(children[at].name.as_str(), name) {
            return match &children[at].text {
                Some(content) => Some(trim(content.as_str()).to_owned()),
                None => None,
            };
        }
        assert(views.skip(at as int).drop_first() =~= views.skip(at + 1));
        at = at + 1;
    }
    None
}

fn property_of(branch: &XmlBranch) -> (property: Option<(String, String)>)
    ensures
        match property {
            Some((name, value)) => property_in(branch@) == Some((name@, value@)),
            None => property_in(branch@) is None,
        },
{
    if !same_text(branch.name.as_str(), "property") {
        return None;
    }
    let found = text_of_first(&branch.children, "name");
    let given = text_of_first(&branch.children, "value");
    match (found, given) {
        (Some(name), Some(value)) => if name.as_str().unicode_len() > 0 {
            Some((name, value))
        } else {
            None
        },
        _ => None,
    }
}

/// Takes the options of a file up: those of the file replace those that were
/// there before.
pub fn apply_outline(outline: &XmlOutline, options: TextMap<String>) -> (applied: Result<
    TextMap<String>,
    FileManagerError,
>)
    ensures
        match applied {
            Ok(all) => outline@.name == "configuration"@ && text_map::as_texts(all.entries()) == options_with(
                text_map::as_texts(options.entries()),
                outline@.children,
            ),
            Err(error) => outline@.name != "configuration"@ && error@ == root_error(),
        },
{
    if !same_text(outline.name.as_str(), "configuration") {
        return Err(FileManagerError::configuration("A Hadoop config file has an invalid root element"));
    }
    let ghost before = text_map::as_texts(options.entries());
    let ghost branches = outline@.children;
    let mut all = options;
    let mut at: usize = 0;
    assert(branches.take(0) =~= Seq::<BranchView>::empty());
    while at < outline.children.len()
        invariant
            at <= outline.children@.len(),
            branches == outline@.children,
            branches.len() == outline.children@.len(),
            text_map::as_texts(all.entries()) == options_with(before, branches.take(at as int)),
        decreases outline.children@.len() - at,
    {
        let ghost known = text_map::as_texts(all.entries());
        assert(branches.take(at + 1).drop_last() =~= branches.take(at as int));
        assert(branches.take(at + 1).last() == outline.children@[at as int]@);
        match property_of(&outline.children[at]) {
            Some((name, value)) => {
                let ghost key = name@;
                let ghost given = value@;
                let _earlier = all.insert(name, value);
                assert(text_map::as_texts(all.entries()) =~= known.insert(key, given));
            },
            None => {},
        }
        at = at + 1;
    }
    assert(branches.take(at as int) =~= branches);
    Ok(all)
}

/// What a file is refused with, where it is refused.
pub open spec fn file_refusal(bytes: Seq<u8>) -> Option<models::ManagerErrorView> {
    if bytes.len() > MAX_HADOOP_CONFIG_FILE_SIZE {
        Some(models::configuration_error("A Hadoop config file is invalid or too large"@))
    } else if !valid_utf8(bytes) {
        Some(models::configuration_error("A Hadoop config file is not valid UTF-8"@))
    } else {
        match outline_of(decode_utf8(bytes)) {
            Some(outline) => if outline.name == "configuration"@ {
                None
            } else {
                Some(root_error())
            },
            None => Some(models::configuration_error("A Hadoop config file contains invalid XML"@)),
        }
    }
}

/// The options after a file that is not refused.
pub open spec fn options_after(
    options: Map<Seq<char>, Seq<char>>,
    bytes: Seq<u8>,
) -> Map<Seq<char>, Seq<char>> {
    match outline_of(decode_utf8(bytes)) {
        Some(outline) => options_with(options, outline.children),
        None => options,
    }
}

/// Takes the options of a file up, from its bytes.
pub fn apply_file(bytes: Vec<u8>, options: TextMap<String>) -> (applied: Result<
    TextMap<String>,
    FileManagerError,
>)
    ensures
        match applied {
            Ok(all) => file_refusal(bytes@) is None && text_map::as_texts(all.entries()) == options_after(
                text_map::as_texts(options.entries()),
                bytes@,
            ),
            Err(error) => file_refusal(bytes@) == Some(error@),
        },
{
    let length: u64 = bytes.len() as u64;
    if length > MAX_HADOOP_CONFIG_FILE_SIZE {
        return Err(FileManagerError::configuration("A Hadoop config file is invalid or too large"));
    }
    match text_of(bytes) {
        None => Err(FileManagerError::configuration("A Hadoop config file is not valid UTF-8")),
        Some(content) => match parse_outline(content.as_str()) {
            Err(_) => Err(FileManagerError::configuration("A Hadoop config file contains invalid XML")),
            Ok(outline) => apply_outline(&outline, options),
        },
    }
}

/// The files that are read, in this order.
#[derive(Clone, Copy, Debug, PartialEq, Eq, Structural)]
pub enum HadoopFile {
    CoreSite,
    HdfsSite,
}

impl HadoopFile {
    /// What the file is called.
    pub open spec fn name(self) -> Seq<char> {
        match self {
            HadoopFile::CoreSite => "core-site.xml"@,
            HadoopFile::HdfsSite => "hdfs-site.xml"@,
        }
    }

    /// What the file is called.
    pub fn file_name(self) -> (name: &'static str)
        ensures
            name@ == self.name(),
    {
        match self {
            HadoopFile::CoreSite => "core-site.xml",
            HadoopFile::HdfsSite => "hdfs-site.xml",
        }
    }
}

/// What stands at the path of the directory.
#[derive(Clone, Copy, Debug, PartialEq, Eq, Structural)]
pub enum DirectoryReply {
    Inaccessible,
    Directory,
    Other,
}

/// What stands at the path of a file.
#[derive(Clone, Copy, Debug, PartialEq, Eq, Structural)]
pub enum FileReply {
    Missing,
    Inaccessible,
    Found { is_file: bool, length: u64 },
}

/// The directory is due to be looked at.
#[derive(Debug)]
#[non_exhaustive]
pub struct HadoopDirectory {
    pub directory: String,
}

/// A file of the directory is due to be looked at.
#[derive(Debug)]
#[non_exhaustive]
pub struct HadoopFileCheck {
    pub directory: String,
    pub file: HadoopFile,
    pub options: TextMap<String>,
    pub loaded: bool,
}

/// A file of the directory is due to be read, up to one byte more than
/// [`MAX_HADOOP_CONFIG_FILE_SIZE`].
#[derive(Debug)]
#[non_exhaustive]
pub struct HadoopFileRead {
    pub directory: String,
    pub file: HadoopFile,
    pub options: TextMap<String>,
}

/// A file is to be looked at or to be read, or all were.
#[derive(Debug)]
pub enum HadoopStep {
    Check(HadoopFileCheck),
    Read(HadoopFileRead),
    Loaded(TextMap<String>),
}

/// Behind a file comes the next one. Behind the last one the options are
/// complete, unless no file was there.
pub open spec fn goes_on(
    step: Result<HadoopStep, FileManagerError>,
    directory: Seq<char>,
    file: HadoopFile,
    options: Map<Seq<char>, Seq<char>>,
    loaded: bool,
) -> bool {
    match file {
        HadoopFile::CoreSite => step matches Ok(HadoopStep::Check(next)) && next.directory@ == directory && next.file
            == HadoopFile::HdfsSite && text_map::as_texts(next.options.entries()) == options && next.loaded == loaded,
        HadoopFile::HdfsSite => if loaded {
            step matches Ok(HadoopStep::Loaded(all)) && text_map::as_texts(all.entries()) == options
        } else {
            step matches Err(error) && error@ == models::configuration_error(
                "The Hadoop config directory must contain core-site.xml or hdfs-site.xml"@,
            )
        },
    }
}

fn go_on(directory: String, file: HadoopFile, options: TextMap<String>, loaded: bool) -> (step: Result<
    HadoopStep,
    FileManagerError,
>)
    ensures
        goes_on(step, directory@, file, text_map::as_texts(options.entries()), loaded),
{
    match file {
        HadoopFile::CoreSite => Ok(
            HadoopStep::Check(HadoopFileCheck { directory, file: HadoopFile::HdfsSite, options, loaded }),
        ),
        HadoopFile::HdfsSite => if loaded {
            Ok(HadoopStep::Loaded(options))
        } else {
            Err(
                FileManagerError::configuration(
                    "The Hadoop config directory must contain core-site.xml or hdfs-site.xml",
                ),
            )
        },
    }
}

/// Begins to load the client options from a directory. `absolute` says whether
/// its path is absolute on this system.
pub fn load_hadoop_config_options(directory: &str, absolute: bool) -> (step: Result<
    HadoopDirectory,
    FileManagerError,
>)
    ensures
        match step {
            Ok(due) => endpoint::is_present(directory@) && absolute && due.directory@ == directory@,
            Err(error) => if !endpoint::is_present(directory@) {
                error@ == endpoint::required_error("Hadoop config directory"@)
            } else {
                !absolute && error@ == models::configuration_error(
                    "The Hadoop config directory must be an absolute path"@,
                )
            },
        },
{
    match validate_required("Hadoop config directory", directory) {
        Err(error) => Err(error),
        Ok(_) => if absolute {
            Ok(HadoopDirectory { directory: directory.to_owned() })
        } else {
            Err(FileManagerError::configuration("The Hadoop config directory must be an absolute path"))
        },
    }
}

impl HadoopDirectory {
    /// What stands at the directory's path: only a directory will do.
    pub fn observed(self, reply: DirectoryReply) -> (step: Result<HadoopFileCheck, FileManagerError>)
        ensures
            match reply {
                DirectoryReply::Directory => step matches Ok(due) && due.directory@ == self.directory@ && due.file
                    == HadoopFile::CoreSite && text_map::as_texts(due.options.entries()) == Map::<
                    Seq<char>,
                    Seq<char>,
                >::empty() && !due.loaded,
                DirectoryReply::Inaccessible => step matches Err(error) && error@ == models::configuration_error(
                    "The Hadoop config directory is not accessible"@,
                ),
                DirectoryReply::Other => step matches Err(error) && error@ == models::configuration_error(
                    "The Hadoop config path must be a directory"@,
                ),
            },
    {
        match reply {
            DirectoryReply::Directory => {
                let options: TextMap<String> = TextMap::new();
                assert(text_map::as_texts(options.entries()) =~= Map::<Seq<char>, Seq<char>>::empty());
                Ok(
                    HadoopFileCheck {
                        directory: self.directory,
                        file: HadoopFile::CoreSite,
                        options,
                        loaded: false,
                    },
                )
            },
            DirectoryReply::Inaccessible => Err(
                FileManagerError::configuration("The Hadoop config directory is not accessible"),
            ),
            DirectoryReply::Other => Err(
                FileManagerError::configuration("The Hadoop config path must be a directory"),
            ),
        }
    }
}

impl HadoopFileCheck {
    /// What stands at the file's path: a missing file is passed over, and a file
    /// of a bounded length is read.
    pub fn observed(self, reply: FileReply) -> (step: Result<HadoopStep, FileManagerError>)
        ensures
            match reply {
                FileReply::Missing => goes_on(
                    step,
                    self.directory@,
                    self.file,
                    text_map::as_texts(self.options.entries()),
                    self.loaded,
                ),
                FileReply::Inaccessible => step matches Err(error) && error@ == models::configuration_error(
                    "A Hadoop config file is not accessible"@,
                ),
                FileReply::Found { is_file, length } => if !is_file || length > MAX_HADOOP_CONFIG_FILE_SIZE {
                    step matches Err(error) && error@ == models::configuration_error(
                        "A Hadoop config file is invalid or too large"@,
                    )
                } else {
                    step matches Ok(HadoopStep::Read(due)) && due.directory@ == self.directory@ && due.file
                        == self.file && due.options == self.options
                },
            },
    {
        match reply {
            FileReply::Missing => go_on(self.directory, self.file, self.options, self.loaded),
            FileReply::Inaccessible => Err(
                FileManagerError::configuration("A Hadoop config file is not accessible"),
            ),
            FileReply::Found { is_file, length } => if !is_file || length > MAX_HADOOP_CONFIG_FILE_SIZE {
                Err(FileManagerError::configuration("A Hadoop config file is invalid or too large"))
            } else {
                Ok(
                    HadoopStep::Read(
                        HadoopFileRead { directory: self.directory, file: self.file, options: self.options },
                    ),
                )
            },
        }
    }
}

impl HadoopFileRead {
    /// What was read of the file: its options replace those of the files before
    /// it.
    pub fn content(self, reply: Result<Vec<u8>, String>) -> (step: Result<HadoopStep, FileManagerError>)
        ensures
            match reply {
                Err(_) => step matches Err(error) && error@ == models::configuration_error(
                    "A Hadoop config file is not accessible"@,
                ),
                Ok(bytes) => match file_refusal(bytes@) {
                    Some(refusal) => step matches Err(error) && error@ == refusal,
                    None => goes_on(
                        step,
                        self.directory@,
                        self.file,
                        options_after(text_map::as_texts(self.options.entries()), bytes@),
                        true,
                    ),
                },
            },
    {
        match reply {
            Err(_) => Err(FileManagerError::configuration("A Hadoop config file is not accessible")),
            Ok(bytes) => match apply_file(bytes, self.options) {
                Err(error) => Err(error),
                Ok(options) => go_on(self.directory, self.file, options, true),
            },
        }
    }
}

/// A file decides about the options that it names, whatever was there before:
/// the last property of a name gives its value. What it does not name stays.
pub proof fn a_file_decides_what_it_names(
    options: Map<Seq<char>, Seq<char>>,
    branches: Seq<BranchView>,
    name: Seq<char>,
)
    ensures
        forall|i: int|
            0 <= i < branches.len() && (#[trigger] property_in(branches[i]) matches Some(property) && property.0
                == name) && (forall|j: int|
                i < j < branches.len() ==> !(#[trigger] property_in(branches[j]) matches Some(later) && later.0
                    == name)) ==> options_with(options, branches).contains_key(name) && options_with(
                options,
                branches,
            )[name] == (property_in(branches[i])->0).1,
        (forall|i: int|
            0 <= i < branches.len() ==> !(#[trigger] property_in(branches[i]) matches Some(property) && property.0
                == name)) ==> (options_with(options, branches).contains_key(name) <==> options.contains_key(name))
            && (options.contains_key(name) ==> options_with(options, branches)[name] == options[name]),
    decreases branches.len(),
{
    if branches.len() > 0 {
        let front = branches.drop_last();
        a_file_decides_what_it_names(options, front, name);
        let last = branches.len() - 1;
        assert forall|i: int| 0 <= i < front.len() implies front[i] == branches[i] by {}
        assert forall|i: int|
            0 <= i < branches.len() && (#[trigger] property_in(branches[i]) matches Some(property) && property.0
                == name) && (forall|j: int|
                i < j < branches.len() ==> !(#[trigger] property_in(branches[j]) matches Some(later) && later.0
                    == name)) implies options_with(options, branches).contains_key(name) && options_with(
            options,
            branches,
        )[name] == (property_in(branches[i])->0).1 by {
            if i < last {
                assert(!(property_in(branches[last]) matches Some(later) && later.0 == name));
                assert(property_in(front[i]) == property_in(branches[i]));
                assert forall|j: int| i < j < front.len() implies !(#[trigger] property_in(front[j]) matches Some(
                    later,
                ) && later.0 == name) by {
                    assert(property_in(branches[j]) == property_in(front[j]));
                }
            }
        }
        if forall|i: int|
            0 <= i < branches.len() ==> !(#[trigger] property_in(branches[i]) matches Some(property) && property.0
                == name) {
            assert forall|i: int| 0 <= i < front.len() implies !(#[trigger] property_in(front[i]) matches Some(
                property,
            ) && property.0 == name) by {
                assert(property_in(branches[i]) == property_in(front[i]));
            }
            assert(!(property_in(branches[last]) matches Some(property) && property.0 == name));
        }
    }
}

/// Of the children with a name the first counts, and only where none has the name
/// is there none.
pub proof fn the_first_child_with_a_name_counts(children: Seq<LeafView>, name: Seq<char>)
    ensures
        match first_named(children, name) {
            Some(child) => child.name == name && exists|i: int|
                0 <= i < children.len() && #[trigger] children[i] == child && forall|j: int|
                    0 <= j < i ==> (#[trigger] children[j]).name != name,
            None => forall|i: int| 0 <= i < children.len() ==> (#[trigger] children[i]).name != name,
        },
    decreases children.len(),
{
    if children.len() > 0 {
        let rest = children.drop_first();
        if children[0].name != name {
            the_first_child_with_a_name_counts(rest, name);
            match first_named(rest, name) {
                Some(child) => {
                    let i = choose|i: int|
                        0 <= i < rest.len() && #[trigger] rest[i] == child && forall|j: int|
                            0 <= j < i ==> (#[trigger] rest[j]).name != name;
                    assert(children[i + 1] == child);
                    assert forall|j: int| 0 <= j < i + 1 implies (#[trigger] children[j]).name != name by {
                        if j > 0 {
                            assert(rest[j - 1] == children[j]);
                        }
                    }
                },
                None => {
                    assert forall|i: int| 0 <= i < children.len() implies (#[trigger] children[i]).name != name by {
                        if i > 0 {
                            assert(rest[i - 1] == children[i]);
                        }
                    }
                },
            }
        }
    }
}

/// A property with a name and a value sets the option of that name to that value,
/// both without the whitespace round them. What is called otherwise, and what has
/// no name, sets none.
pub proof fn properties_set_their_option(branch: BranchView, name: LeafView, value: LeafView)
    ensures
        branch.name == "property"@ && first_named(branch.children, "name"@) == Some(name) && first_named(
            branch.children,
            "value"@,
        ) == Some(value) && name.text is Some && value.text is Some && endpoint::trimmed(name.text->0).len() > 0
            ==> property_in(branch) == Some((endpoint::trimmed(name.text->0), endpoint::trimmed(value.text->0))),
        branch.name != "property"@ ==> property_in(branch) is None,
        first_named(branch.children, "name"@) is None || first_named(branch.children, "value"@) is None ==> property_in(
            branch,
        ) is None,
        property_in(branch) matches Some(option) ==> option.0.len() > 0,
{
}

/// The outline of a document says the names and the texts that stand in it.
pub proof fn outlines_say_what_stands_in_them(outline: XmlOutline, i: int, j: int)
    requires
        0 <= i < outline.children@.len(),
        0 <= j < outline.children@[i].children@.len(),
    ensures
        outline@.name == outline.name@,
        outline@.children.len() == outline.children@.len(),
        outline@.children[i].name == outline.children@[i].name@,
        outline@.children[i].children.len() == outline.children@[i].children@.len(),
        outline@.children[i].children[j].name == outline.children@[i].children@[j].name@,
        outline.children@[i].children@[j].text is None <==> outline@.children[i].children[j].text is None,
        outline.children@[i].children@[j].text matches Some(text) ==> outline@.children[i].children[j].text == Some(
            text@,
        ),
{
}

/// A file is taken exactly where it has at most one mebibyte, is text and a
/// document, and its root is a configuration. It is refused for the first of these
/// that does not hold.
pub proof fn only_configurations_are_taken(bytes: Seq<u8>)
    ensures
        file_refusal(bytes) is None <==> bytes.len() <= 1048576 && valid_utf8(bytes) && outline_of(decode_utf8(bytes))
            is Some && outline_of(decode_utf8(bytes))->0.name == "configuration"@,
        file_refusal(bytes) matches Some(error) ==> error.code == "configuration"@ && error.recovery is None,
        bytes.len() > 1048576 ==> file_refusal(bytes) is Some && file_refusal(bytes)->0.message
            == "A Hadoop config file is invalid or too large"@,
        bytes.len() <= 1048576 && !valid_utf8(bytes) ==> file_refusal(bytes) is Some && file_refusal(bytes)->0.message
            == "A Hadoop config file is not valid UTF-8"@,
        bytes.len() <= 1048576 && valid_utf8(bytes) && outline_of(decode_utf8(bytes)) is None ==> file_refusal(bytes)
            is Some && file_refusal(bytes)->0.message == "A Hadoop config file contains invalid XML"@,
        bytes.len() <= 1048576 && valid_utf8(bytes) && outline_of(decode_utf8(bytes)) is Some && outline_of(
            decode_utf8(bytes),
        )->0.name != "configuration"@ ==> file_refusal(bytes) is Some && file_refusal(bytes)->0.message
            == "A Hadoop config file has an invalid root element"@,
        file_refusal(bytes) is None ==> forall|options: Map<Seq<char>, Seq<char>>| #[trigger]
            options_after(options, bytes) == options_with(options, outline_of(decode_utf8(bytes))->0.children),
{
}

/// Both files are looked at, the core one first, with what was found so far. Behind
/// the second one the options are complete, where at least one file was there.
pub proof fn both_files_are_looked_at(
    step: Result<HadoopStep, FileManagerError>,
    directory: Seq<char>,
    file: HadoopFile,
    options: Map<Seq<char>, Seq<char>>,
    loaded: bool,
)
    requires
        goes_on(step, directory, file, options, loaded),
    ensures
        HadoopFile::CoreSite.name() == "core-site.xml"@,
        HadoopFile::HdfsSite.name() == "hdfs-site.xml"@,
        file == HadoopFile::CoreSite ==> step is Ok && (step->Ok_0 matches HadoopStep::Check(next) && next.directory@
            == directory && next.file == HadoopFile::HdfsSite && next.loaded == loaded && text_map::as_texts(
            next.options.entries(),
        ) == options),
        file == HadoopFile::HdfsSite && loaded ==> step is Ok && (step->Ok_0 matches HadoopStep::Loaded(all)
            && text_map::as_texts(all.entries()) == options),
        file == HadoopFile::HdfsSite && !loaded ==> step is Err && step->Err_0.code@ == "configuration"@
            && step->Err_0.message@ == "The Hadoop config directory must contain core-site.xml or hdfs-site.xml"@,
{
}

} // verus!
