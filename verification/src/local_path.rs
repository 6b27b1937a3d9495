//! Local paths by their components.
use crate::text::joined2;
use crate::text::same_text;
use vstd::prelude::*;

verus! {

/// A component of a local path.
#[derive(Debug)]
pub enum PathComponent {
    /// A drive or share in front of the root.
    Prefix(String),
    /// The root directory.
    RootDir,
    /// A single dot.
    CurDir,
    /// Two dots.
    ParentDir,
    /// A directory or file by its name.
    Normal(String),
}

/// What a [`PathComponent`] says.
#[verifier::ext_equal]
pub enum ComponentView {
    Prefix(Seq<char>),
    RootDir,
    CurDir,
    ParentDir,
    Normal(Seq<char>),
}

impl View for PathComponent {
    type V = ComponentView;

    open spec fn view(&self) -> ComponentView {
        match *self {
            PathComponent::Prefix(name) => ComponentView::Prefix(name@),
            PathComponent::RootDir => ComponentView::RootDir,
            PathComponent::CurDir => ComponentView::CurDir,
            PathComponent::ParentDir => ComponentView::ParentDir,
            PathComponent::Normal(name) => ComponentView::Normal(name@),
        }
    }
}

/// A local path.
#[derive(Debug)]
pub struct LocalPath {
    pub absolute: bool,
    pub components: Vec<PathComponent>,
}

impl View for LocalPath {
    type V = Seq<ComponentView>;

    open spec fn view(&self) -> Seq<ComponentView> {
        Seq::new(self.components@.len(), |i: int| self.components@[i]@)
    }
}

/// What a path names last, where that is a name.
pub open spec fn file_name(path: Seq<ComponentView>) -> Option<Seq<char>> {
    if path.len() == 0 {
        None
    } else {
        match path.last() {
            ComponentView::Normal(name) => Some(name),
            _ => None,
        }
    }
}

/// The path without its last component, where that can be taken off.
pub open spec fn parent(path: Seq<ComponentView>) -> Option<Seq<ComponentView>> {
    if path.len() == 0 {
        None
    } else {
        match path.last() {
            ComponentView::Normal(_) => Some(path.drop_last()),
            ComponentView::CurDir => Some(path.drop_last()),
            ComponentView::ParentDir => Some(path.drop_last()),
            _ => None,
        }
    }
}

/// A dot or two dots stand somewhere in the path.
pub open spec fn has_dots(path: Seq<ComponentView>) -> bool {
    exists|i: int| 0 <= i < path.len() && is_dots(#[trigger] path[i])
}

/// The component is a dot or two dots.
pub open spec fn is_dots(component: ComponentView) -> bool {
    component is CurDir || component is ParentDir
}

/// The names of the directories on a path, from the root down.
pub open spec fn directory_names(path: Seq<ComponentView>) -> Seq<Seq<char>>
    decreases path.len(),
{
    if path.len() == 0 {
        Seq::empty()
    } else {
        match path.last() {
            ComponentView::Normal(name) => directory_names(path.drop_last()).push(name),
            _ => directory_names(path.drop_last()),
        }
    }
}

/// A drive, a share or the root directory stands somewhere in the path.
pub open spec fn has_root(path: Seq<ComponentView>) -> bool {
    exists|i: int| 0 <= i < path.len() && is_root(#[trigger] path[i])
}

/// The component is a drive, a share or the root directory.
pub open spec fn is_root(component: ComponentView) -> bool {
    component is Prefix || component is RootDir
}

fn component_is_dots(component: &PathComponent) -> (dots: bool)
    ensures
        dots == is_dots(component@),
{
    match component {
        PathComponent::CurDir => true,
        PathComponent::ParentDir => true,
        _ => false,
    }
}

fn same_component(left: &PathComponent, right: &PathComponent) -> (same: bool)
    ensures
        same == (left@ == right@),
{
    match (left, right) {
        (PathComponent::Prefix(first), PathComponent::Prefix(second)) => same_text(
            first.as_str(),
            second.as_str(),
        ),
        (PathComponent::RootDir, PathComponent::RootDir) => true,
        (PathComponent::CurDir, PathComponent::CurDir) => true,
        (PathComponent::ParentDir, PathComponent::ParentDir) => true,
        (PathComponent::Normal(first), PathComponent::Normal(second)) => same_text(
            first.as_str(),
            second.as_str(),
        ),
        _ => false,
    }
}

impl LocalPath {
    /// What the path names last.
    pub fn name(&self) -> (name: Option<&str>)
        ensures
            match name {
                Some(present) => file_name(self@) == Some(present@),
                None => file_name(self@) is None,
            },
    {
        let count: usize = self.components.len();
        if count == 0 {
            return None;
        }
        assert(self@.last() == self.components@[count - 1]@);
        match &self.components[count - 1] {
            PathComponent::Normal(name) => Some(name.as_str()),
            _ => None,
        }
    }

    /// How many components the path has without its last one, where that can be
    /// taken off.
    fn parent_length(&self) -> (length: Option<usize>)
        ensures
            match length {
                Some(present) => present == self@.len() - 1 && parent(self@) == Some(self@.drop_last()),
                None => parent(self@) is None,
            },
    {
        let count: usize = self.components.len();
        if count == 0 {
            return None;
        }
        assert(self@.last() == self.components@[count - 1]@);
        match &self.components[count - 1] {
            PathComponent::Normal(_) => Some(count - 1),
            PathComponent::CurDir => Some(count - 1),
            PathComponent::ParentDir => Some(count - 1),
            _ => None,
        }
    }

    /// Says whether the path has a parent.
    pub fn has_parent(&self) -> (has: bool)
        ensures
            has == (parent(self@) is Some),
    {
        self.parent_length().is_some()
    }

    /// Two paths have the same parent, or neither has one.
    pub fn same_parent(&self, other: &LocalPath) -> (same: bool)
        ensures
            same == (parent(self@) == parent(other@)),
    {
        match (self.parent_length(), other.parent_length()) {
            (None, None) => true,
            (Some(left), Some(right)) => {
                let first: usize = left;
                let second: usize = right;
                if first != second {
                    assert(self@.drop_last().len() != other@.drop_last().len());
                    return false;
                }
                let mut i: usize = 0;
                while i < first
                    invariant
                        i <= first,
                        first == self@.len() - 1,
                        first == other@.len() - 1,
                        parent(self@) == Some(self@.drop_last()),
                        parent(other@) == Some(other@.drop_last()),
                        forall|j: int| 0 <= j < i ==> self@[j] == other@[j],
                    decreases first - i,
                {
                    if !same_component(&self.components[i], &other.components[i]) {
                        assert(self@.drop_last()[i as int] != other@.drop_last()[i as int]);
                        return false;
                    }
                    i = i + 1;
                }
                assert(self@.drop_last() =~= other@.drop_last());
                true
            },
            _ => false,
        }
    }

    /// Says whether a dot or two dots stand in the path.
    pub fn contains_dots(&self) -> (dots: bool)
        ensures
            dots == has_dots(self@),
    {
        let mut i: usize = 0;
        while i < self.components.len()
            invariant
                i <= self.components@.len(),
                forall|j: int| 0 <= j < i ==> !is_dots(#[trigger] self@[j]),
            decreases self.components@.len() - i,
        {
            if component_is_dots(&self.components[i]) {
                assert(is_dots(self@[i as int]));
                return true;
            }
            i = i + 1;
        }
        false
    }
}

/// The file name that a path gives, or why it gives none.
pub open spec fn single_name(path: Seq<ComponentView>, label: Seq<char>) -> Result<Seq<char>, Seq<char>> {
    match file_name(path) {
        None => Err(label + " must name a file"@),
        Some(name) => if name == ""@ || name == "."@ || name == ".."@ {
            Err(label + " has an invalid file name"@)
        } else {
            Ok(name)
        },
    }
}

/// The file name that a path gives, where it gives a usable one.
pub fn single_file_name(path: &LocalPath, label: &str) -> (name: Result<String, String>)
    ensures
        match name {
            Ok(present) => single_name(path@, label@) == Ok::<Seq<char>, Seq<char>>(present@),
            Err(reason) => single_name(path@, label@) == Err::<Seq<char>, Seq<char>>(reason@),
        },
{
    match path.name() {
        None => Err(joined2(label, " must name a file")),
        Some(name) => {
            if same_text(name, "") || same_text(name, ".") || same_text(name, "..") {
                Err(joined2(label, " has an invalid file name"))
            } else {
                Ok(name.to_owned())
            }
        },
    }
}

/// Why a directory is not opened component by component.
#[derive(Clone, Copy, Debug, PartialEq, Eq, Structural)]
pub enum DirectoryRefusal {
    NotAbsolute,
    UnsafeComponent,
    MissingRoot,
}

impl DirectoryRefusal {
    /// The reason in words.
    pub open spec fn text(self) -> Seq<char> {
        match self {
            DirectoryRefusal::NotAbsolute => "directory path must be absolute"@,
            DirectoryRefusal::UnsafeComponent => "unsafe directory path component"@,
            DirectoryRefusal::MissingRoot => "directory root is missing"@,
        }
    }

    /// The reason in words.
    pub fn message(self) -> (message: String)
        ensures
            message@ == self.text(),
    {
        match self {
            DirectoryRefusal::NotAbsolute => "directory path must be absolute".to_owned(),
            DirectoryRefusal::UnsafeComponent => "unsafe directory path component".to_owned(),
            DirectoryRefusal::MissingRoot => "directory root is missing".to_owned(),
        }
    }
}

/// The names in a vector of texts.
pub open spec fn texts(names: Seq<String>) -> Seq<Seq<char>> {
    Seq::new(names.len(), |i: int| names[i]@)
}

/// The directories that have to be opened one below the other, from the root
/// down, so that no link on the way is followed. The walk covers the first
/// `count` components of the path.
pub fn directory_walk(path: &LocalPath, count: usize) -> (walk: Result<Vec<String>, DirectoryRefusal>)
    requires
        count <= path@.len(),
    ensures
        match walk {
            Ok(names) => path.absolute && !has_dots(path@.take(count as int)) && has_root(
                path@.take(count as int),
            ) && texts(names@) == directory_names(path@.take(count as int)),
            Err(DirectoryRefusal::NotAbsolute) => !path.absolute,
            Err(DirectoryRefusal::UnsafeComponent) => path.absolute && has_dots(path@.take(count as int)),
            Err(DirectoryRefusal::MissingRoot) => path.absolute && !has_dots(path@.take(count as int))
                && !has_root(path@.take(count as int)),
        },
{
    if !path.absolute {
        return Err(DirectoryRefusal::NotAbsolute);
    }
    let mut names: Vec<String> = Vec::new();
    let mut rooted = false;
    let mut i: usize = 0;
    let ghost walked = path@.take(count as int);
    assert(walked.take(0) =~= Seq::<ComponentView>::empty());
    assert(texts(names@) =~= directory_names(walked.take(0)));
    while i < count
        invariant
            i <= count,
            count <= path@.len(),
            path@.len() == path.components@.len(),
            walked == path@.take(count as int),
            path.absolute,
            forall|j: int| 0 <= j < i ==> !is_dots(#[trigger] walked[j]),
            rooted == has_root(walked.take(i as int)),
            texts(names@) == directory_names(walked.take(i as int)),
        decreases count - i,
    {
        let component = &path.components[i];
        let ghost next = walked.take(i + 1);
        let ghost before = walked.take(i as int);
        let ghost named = names@;
        proof {
            assert(next.drop_last() =~= before);
            assert(next.last() == component@);
            assert(walked[i as int] == component@);
            assert(next[i as int] == component@);
            if has_root(before) {
                let k = choose|k: int| 0 <= k < before.len() && is_root(#[trigger] before[k]);
                assert(next[k] == before[k]);
                assert(has_root(next));
            }
            if has_root(next) && !is_root(component@) {
                let k = choose|k: int| 0 <= k < next.len() && is_root(#[trigger] next[k]);
                assert(k < i);
                assert(before[k] == next[k]);
                assert(has_root(before));
            }
            if is_root(component@) {
                assert(has_root(next));
            }
        }
        match component {
            PathComponent::Prefix(_) => {
                rooted = true;
            },
            PathComponent::RootDir => {
                rooted = true;
            },
            PathComponent::Normal(name) => {
                names.push(name.clone());
                assert(texts(names@) =~= texts(named).push(name@));
            },
            PathComponent::CurDir => {
                assert(is_dots(walked[i as int]));
                return Err(DirectoryRefusal::UnsafeComponent);
            },
            PathComponent::ParentDir => {
                assert(is_dots(walked[i as int]));
                return Err(DirectoryRefusal::UnsafeComponent);
            },
        }
        i = i + 1;
    }
    assert(walked.take(i as int) =~= walked);
    if !rooted {
        return Err(DirectoryRefusal::MissingRoot);
    }
    Ok(names)
}

/// What a path names last is the name that it ends with, and a path that ends
/// with anything else names nothing.
pub proof fn paths_name_what_they_end_with(path: LocalPath)
    ensures
        path.components@.len() == 0 ==> file_name(path@) is None,
        path.components@.len() > 0 ==> match path.components@.last() {
            PathComponent::Normal(name) => file_name(path@) == Some(name@),
            _ => file_name(path@) is None,
        },
{
    if path.components@.len() > 0 {
        assert(path@.last() == path.components@.last()@);
    }
}

/// Two files stand in one directory exactly where their paths differ in nothing
/// but what they end with.
pub proof fn siblings_differ_in_their_names_alone(path: LocalPath, other: LocalPath)
    requires
        path.components@.len() > 0 && path.components@.last() is Normal,
        other.components@.len() > 0 && other.components@.last() is Normal,
    ensures
        parent(path@) is Some,
        parent(path@) == parent(other@) <==> (path.components@.len() == other.components@.len() && forall|i: int|
            0 <= i < path.components@.len() - 1 ==> (#[trigger] path.components@[i])@ == other.components@[i]@),
{
    assert(path@.last() == path.components@.last()@);
    assert(other@.last() == other.components@.last()@);
    if parent(path@) == parent(other@) {
        assert(path@.drop_last() == other@.drop_last());
        assert forall|i: int| 0 <= i < path.components@.len() - 1 implies (#[trigger] path.components@[i])@
            == other.components@[i]@ by {
            assert(path@.drop_last()[i] == other@.drop_last()[i]);
        }
    } else if path.components@.len() == other.components@.len() && forall|i: int|
        0 <= i < path.components@.len() - 1 ==> (#[trigger] path.components@[i])@ == other.components@[i]@ {
        assert forall|i: int| 0 <= i < path@.len() - 1 implies path@.drop_last()[i] == other@.drop_last()[i] by {
            assert(path.components@[i]@ == other.components@[i]@);
        }
        assert(path@.drop_last() =~= other@.drop_last());
    }
}

/// Components of a path look the same only where they are of one sort and have
/// one name.
pub proof fn components_are_told_apart(left: PathComponent, right: PathComponent)
    ensures
        left@ == right@ ==> (left is Prefix <==> right is Prefix) && (left is RootDir <==> right is RootDir) && (
        left is CurDir <==> right is CurDir) && (left is ParentDir <==> right is ParentDir) && (left is Normal <==> right is Normal),
        left@ == right@ ==> (left matches PathComponent::Normal(name) ==> right->Normal_0@ == name@),
        left@ == right@ ==> (left matches PathComponent::Prefix(name) ==> right->Prefix_0@ == name@),
{
}

/// A path holds dots exactly where one of its components is a dot or two dots.
pub proof fn dots_are_found(path: LocalPath)
    ensures
        has_dots(path@) <==> exists|i: int|
            0 <= i < path.components@.len() && ((#[trigger] path.components@[i]) is CurDir
                || path.components@[i] is ParentDir),
{
    if has_dots(path@) {
        let i = choose|i: int| 0 <= i < path@.len() && is_dots(#[trigger] path@[i]);
        assert(path.components@[i] is CurDir || path.components@[i] is ParentDir);
    }
    if exists|i: int|
        0 <= i < path.components@.len() && ((#[trigger] path.components@[i]) is CurDir
            || path.components@[i] is ParentDir) {
        let i = choose|i: int|
            0 <= i < path.components@.len() && ((#[trigger] path.components@[i]) is CurDir
                || path.components@[i] is ParentDir);
        assert(is_dots(path@[i]));
    }
}

/// A path gives the file name that it ends with, unless that is empty, a dot or
/// two dots, and a path that ends with no name is refused.
pub proof fn file_names_are_single_names(path: LocalPath, label: Seq<char>)
    ensures
        match single_name(path@, label) {
            Ok(name) => path.components@.len() > 0 && (path.components@.last() matches PathComponent::Normal(last)
                && last@ == name) && name.len() > 0 && name != "."@ && name != ".."@,
            Err(reason) => {
                ||| path.components@.len() == 0 || path.components@.last() !is Normal
                ||| path.components@.last() matches PathComponent::Normal(last) && (last@.len() == 0 || last@ == "."@
                    || last@ == ".."@)
            },
        },
        single_name(path@, label) matches Err(reason) ==> label.len() < reason.len() && reason.take(
            label.len() as int,
        ) == label,
{
    reveal_strlit("");
    reveal_strlit(" must name a file");
    reveal_strlit(" has an invalid file name");
    paths_name_what_they_end_with(path);
    if let Ok(name) = single_name(path@, label) {
        if name.len() == 0 {
            assert(name =~= ""@);
        }
    }
    if let Err(reason) = single_name(path@, label) {
        assert(reason.take(label.len() as int) =~= label);
    }
}

/// The names of the directories on a path from its root down are all names of the
/// path, in their order.
pub proof fn directories_are_the_names_of_the_path(path: Seq<ComponentView>, root: int)
    requires
        0 <= root <= path.len(),
        forall|i: int| 0 <= i < root ==> (#[trigger] path[i]) is Prefix || path[i] is RootDir,
        forall|i: int| root <= i < path.len() ==> (#[trigger] path[i]) is Normal,
    ensures
        directory_names(path).len() == path.len() - root,
        forall|i: int|
            0 <= i < path.len() - root ==> #[trigger] directory_names(path)[i] == path[root + i]->Normal_0,
    decreases path.len(),
{
    if path.len() > root {
        let front = path.drop_last();
        assert forall|i: int| root <= i < front.len() implies (#[trigger] front[i]) is Normal by {
            assert(path[i] is Normal);
        }
        directories_are_the_names_of_the_path(front, root);
        assert(path[path.len() - 1] is Normal);
        let names = directory_names(path);
        assert forall|i: int| 0 <= i < path.len() - root implies #[trigger] names[i] == path[root + i]->Normal_0 by {
            if i < front.len() - root {
                assert(names[i] == directory_names(front)[i]);
            }
        }
    } else if path.len() > 0 {
        let front = path.drop_last();
        assert forall|i: int| 0 <= i < root - 1 implies (#[trigger] front[i]) is Prefix || front[i] is RootDir by {
            assert(path[i] is Prefix || path[i] is RootDir);
        }
        directories_are_the_names_of_the_path(front, root - 1);
        assert(path[path.len() - 1] is Prefix || path[path.len() - 1] is RootDir);
    }
}

/// A path that names no single file, and a directory that is not walked, are told
/// why.
pub proof fn refused_paths_are_told_why(path: Seq<ComponentView>, label: Seq<char>)
    ensures
        file_name(path) is None ==> single_name(path, label) == Err::<Seq<char>, Seq<char>>(
            label + " must name a file"@,
        ),
        file_name(path) is Some && single_name(path, label) is Err ==> single_name(path, label) == Err::<
            Seq<char>,
            Seq<char>,
        >(label + " has an invalid file name"@),
        file_name(path) matches Some(name) ==> (single_name(path, label) is Err <==> name.len() == 0 || name == seq!['.']
            || name == seq!['.', '.']),
        DirectoryRefusal::NotAbsolute.text() == "directory path must be absolute"@,
        DirectoryRefusal::UnsafeComponent.text() == "unsafe directory path component"@,
        DirectoryRefusal::MissingRoot.text() == "directory root is missing"@,
{
    reveal_strlit("");
    reveal_strlit(".");
    reveal_strlit("..");
    assert("."@ =~= seq!['.']);
    assert(".."@ =~= seq!['.', '.']);
    if file_name(path) is Some && file_name(path)->0.len() == 0 {
        assert(file_name(path)->0 =~= ""@);
    }
}

} // verus!
