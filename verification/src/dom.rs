//! Finding elements of the page: by id, by class within a subtree, and the
//! video element with its first source.

use vstd::prelude::*;
use crate::error::VideoError;
use crate::error::VideoErrorView;
use crate::page::ElementView;
use crate::page::Kind;
use crate::page::Page;
use crate::page::PageView;
use crate::text::occurs;

verus! {

/// Whether `c` separates the names in a `class` attribute.
pub open spec fn is_space(c: char) -> bool {
    c == ' ' || c == '\t' || c == '\n' || c == '\r' || c == '\x0c'
}

/// Whether `name` stands at place `i` of the `class` attribute `class`, as a
/// whole name between separators.
pub open spec fn name_at(class: Seq<char>, name: Seq<char>, i: int) -> bool {
    &&& 0 <= i
    &&& i + name.len() <= class.len()
    &&& class.subrange(i, i + name.len()) == name
    &&& i == 0 || is_space(class[i - 1])
    &&& i + name.len() == class.len() || is_space(class[i + name.len()])
}

/// Whether the `class` attribute `class` lists the class `name`.
pub open spec fn has_class(class: Seq<char>, name: Seq<char>) -> bool {
    name.len() > 0 && exists|i: int| name_at(class, name, i)
}

/// The first of the first `n` elements whose id is `id`.
pub open spec fn first_with_id(elements: Seq<ElementView>, id: Seq<char>, n: int) -> Option<int>
    decreases n,
{
    if n <= 0 {
        None
    } else {
        match first_with_id(elements, id, n - 1) {
            Some(i) => Some(i),
            None => if elements[n - 1].id == id {
                Some(n - 1)
            } else {
                None
            },
        }
    }
}

/// Whether `node` is reached from `root` by at most `steps` steps from
/// parent to child.
pub open spec fn within(elements: Seq<ElementView>, root: int, node: int, steps: nat) -> bool
    decreases steps,
{
    if node == root {
        true
    } else if steps == 0 {
        false
    } else {
        match elements[node].parent {
            Some(p) => p < elements.len() && within(elements, root, p as int, (steps - 1) as nat),
            None => false,
        }
    }
}

/// Whether the element `root` contains the element `node`: `node` is `root`
/// itself or one of its descendants.
pub open spec fn subtree_holds(elements: Seq<ElementView>, root: int, node: int) -> bool {
    &&& 0 <= root < elements.len()
    &&& 0 <= node < elements.len()
    &&& within(elements, root, node, elements.len())
}

/// Whether element `i` is a descendant of `root` that lists the class
/// `name`.
pub open spec fn selected(elements: Seq<ElementView>, root: int, name: Seq<char>, i: int) -> bool {
    i != root && subtree_holds(elements, root, i) && has_class(elements[i].class, name)
}

/// The descendants of `root` among the first `n` elements that list the
/// class `name`, in document order.
pub open spec fn select_below(elements: Seq<ElementView>, root: int, name: Seq<char>, n: int) -> Seq<
    usize,
>
    decreases n,
{
    if n <= 0 {
        Seq::empty()
    } else if selected(elements, root, name, n - 1) {
        select_below(elements, root, name, n - 1).push((n - 1) as usize)
    } else {
        select_below(elements, root, name, n - 1)
    }
}

/// Whether element `i` is a source element below `root`.
pub open spec fn is_source_below(elements: Seq<ElementView>, root: int, i: int) -> bool {
    i != root && subtree_holds(elements, root, i) && elements[i].kind is Source
}

/// The first of the first `n` elements that is a source element below
/// `root`.
pub open spec fn first_source_below(elements: Seq<ElementView>, root: int, n: int) -> Option<int>
    decreases n,
{
    if n <= 0 {
        None
    } else {
        match first_source_below(elements, root, n - 1) {
            Some(i) => Some(i),
            None => if is_source_below(elements, root, n - 1) {
                Some(n - 1)
            } else {
                None
            },
        }
    }
}

impl PageView {
    /// Why the document cannot be reached, if it cannot.
    pub open spec fn document_error(self) -> Option<VideoErrorView> {
        if !self.has_window {
            Some(VideoErrorView::WindowNotFound)
        } else if !self.has_document {
            Some(VideoErrorView::DocumentNotFound)
        } else {
            None
        }
    }

    /// The first element in document order whose id is `id`. The empty id
    /// names no element.
    pub open spec fn element_with_id(self, id: Seq<char>) -> Option<int> {
        if id.len() == 0 {
            None
        } else {
            first_with_id(self.elements, id, self.elements.len() as int)
        }
    }

    /// The element with the id `id`, or why there is none: no window, no
    /// document, or no such element.
    pub open spec fn locate(self, id: Seq<char>) -> Result<int, VideoErrorView> {
        match self.document_error() {
            Some(e) => Err(e),
            None => match self.element_with_id(id) {
                Some(i) => Ok(i),
                None => Err(VideoErrorView::ElementNotFound(id)),
            },
        }
    }

    /// The video element with the id `id`: the element with that id, which
    /// must be a video element.
    pub open spec fn locate_video_named(self, id: Seq<char>) -> Result<int, VideoErrorView> {
        match self.locate(id) {
            Ok(i) => if self.media(i) is Some {
                Ok(i)
            } else {
                Err(VideoErrorView::ElementNotFound(id))
            },
            Err(e) => Err(e),
        }
    }

    /// The video element of the player, whose id is `videoPlayer`.
    pub open spec fn locate_video(self) -> Result<int, VideoErrorView> {
        self.locate_video_named("videoPlayer"@)
    }

    /// Whether the element `root` contains the element `node`: `node` is
    /// `root` itself or one of its descendants.
    pub open spec fn contains(self, root: int, node: int) -> bool {
        subtree_holds(self.elements, root, node)
    }

    /// All descendants of `root` that list the class `name`, in document
    /// order.
    pub open spec fn select_all(self, root: int, name: Seq<char>) -> Seq<usize> {
        select_below(self.elements, root, name, self.elements.len() as int)
    }

    /// The first source element below `root` in document order.
    pub open spec fn first_source(self, root: int) -> Option<int> {
        first_source_below(self.elements, root, self.elements.len() as int)
    }
}

/// The view of a lookup's result.
pub open spec fn located(r: Result<usize, VideoError>) -> Result<int, VideoErrorView> {
    match r {
        Ok(i) => Ok(i as int),
        Err(e) => Err(e@),
    }
}

/// The view of an optional index.
pub open spec fn index_view(r: Option<usize>) -> Option<int> {
    match r {
        Some(i) => Some(i as int),
        None => None,
    }
}

/// A search that has found an element keeps it when more elements are
/// searched.
pub proof fn first_with_id_stays(elements: Seq<ElementView>, id: Seq<char>, k: int, n: int)
    requires
        k <= n,
        first_with_id(elements, id, k) is Some,
    ensures
        first_with_id(elements, id, n) == first_with_id(elements, id, k),
    decreases n - k,
{
    if k < n {
        first_with_id_stays(elements, id, k, n - 1);
    }
}

/// What [`first_with_id`] finds: the least index among the first `n` whose
/// element has the id, or nothing if there is none.
pub proof fn first_with_id_is_least(elements: Seq<ElementView>, id: Seq<char>, n: int)
    requires
        n <= elements.len(),
    ensures
        match first_with_id(elements, id, n) {
            Some(i) => 0 <= i < n && elements[i].id == id && forall|j: int|
                0 <= j < i ==> elements[j].id != id,
            None => forall|j: int| 0 <= j < n ==> elements[j].id != id,
        },
    decreases n,
{
    if n > 0 {
        first_with_id_is_least(elements, id, n - 1);
    }
}

/// Two pages whose elements carry the same ids find the same elements.
pub proof fn same_ids_same_elements(
    p: Seq<ElementView>,
    q: Seq<ElementView>,
    id: Seq<char>,
    n: int,
)
    requires
        n <= p.len(),
        p.len() == q.len(),
        forall|i: int| 0 <= i < p.len() ==> p[i].id == q[i].id,
    ensures
        first_with_id(p, id, n) == first_with_id(q, id, n),
    decreases n,
{
    if n > 0 {
        same_ids_same_elements(p, q, id, n - 1);
    }
}

/// The index of the first element of the document with the id `id`.
fn find_by_id(page: &Page, id: &str) -> (r: Option<usize>)
    ensures
        index_view(r) == page@.element_with_id(id@),
        r matches Some(i) ==> i < page@.elements.len(),
{
    if id.is_empty() {
        return None;
    }
    let wanted = String::from_str(id);
    let n = page.elements.len();
    let mut i: usize = 0;
    while i < n
        invariant
            i <= n == page.elements.len(),
            n == page@.elements.len(),
            id@.len() != 0,
            wanted@ == id@,
            first_with_id(page@.elements, id@, i as int) is None,
        decreases n - i,
    {
        if page.elements[i].id == wanted {
            proof {
                assert(page@.elements[i as int].id == id@);
                assert(first_with_id(page@.elements, id@, i + 1) == Some(i as int));
                first_with_id_stays(page@.elements, id@, i + 1, n as int);
            }
            return Some(i);
        }
        proof {
            assert(page@.elements[i as int].id != id@);
        }
        i = i + 1;
    }
    None
}

/// Whether the document can be reached.
pub fn check_document(page: &Page) -> (r: Result<(), VideoError>)
    ensures
        match r {
            Ok(_) => page@.document_error() is None,
            Err(e) => page@.document_error() == Some(e@),
        },
{
    if !page.has_window {
        Err(VideoError::WindowNotFound)
    } else if !page.has_document {
        Err(VideoError::DocumentNotFound)
    } else {
        Ok(())
    }
}

/// Finds the element with the id `id`.
///
/// Fails with `WindowNotFound` or `DocumentNotFound` if the host has none,
/// and with `ElementNotFound(id)` if the document holds no such element.
/// Nothing is remembered between calls.
pub fn get_element_by_id(page: &Page, id: &str) -> (r: Result<usize, VideoError>)
    ensures
        located(r) == page@.locate(id@),
        r matches Ok(i) ==> i < page@.elements.len(),
{
    match check_document(page) {
        Err(e) => Err(e),
        Ok(_) => match find_by_id(page, id) {
            Some(i) => Ok(i),
            None => Err(VideoError::element_not_found(id)),
        },
    }
}

/// Finds the video element with the id `id`.
///
/// Fails as [`get_element_by_id`] does, and with `ElementNotFound(id)` if
/// the element is no video element.
pub fn get_video_element_by_id(page: &Page, id: &str) -> (r: Result<usize, VideoError>)
    ensures
        located(r) == page@.locate_video_named(id@),
        r matches Ok(i) ==> i < page@.elements.len() && page@.media(i as int) is Some,
{
    match get_element_by_id(page, id) {
        Ok(i) => match page.media(i) {
            Some(_) => Ok(i),
            None => Err(VideoError::element_not_found(id)),
        },
        Err(e) => Err(e),
    }
}

/// Finds the video element of the player: the element with the id
/// `videoPlayer`, if it is a video element.
pub fn get_video_element(page: &Page) -> (r: Result<usize, VideoError>)
    ensures
        located(r) == page@.locate_video(),
        r matches Ok(i) ==> i < page@.elements.len() && page@.media(i as int) is Some,
{
    get_video_element_by_id(page, "videoPlayer")
}

fn is_space_char(c: char) -> (r: bool)
    ensures
        r == is_space(c),
{
    c == ' ' || c == '\t' || c == '\n' || c == '\r' || c == '\x0c'
}

/// Whether `name` stands at place `i` of `class`, whose lengths are `n` and
/// `m`.
fn name_stands_at(class: &str, name: &str, n: usize, m: usize, i: usize) -> (r: bool)
    requires
        n == class@.len(),
        m == name@.len(),
        i + m <= n,
    ensures
        r == name_at(class@, name@, i as int),
{
    if i > 0 && !is_space_char(class.get_char(i - 1)) {
        return false;
    }
    if i + m < n && !is_space_char(class.get_char(i + m)) {
        return false;
    }
    occurs(class, name, n, m, i)
}

/// Whether the `class` attribute `class` lists the class `name`.
pub fn class_listed(class: &str, name: &str) -> (r: bool)
    ensures
        r == has_class(class@, name@),
{
    let n = class.unicode_len();
    let m = name.unicode_len();
    if m == 0 || m > n {
        return false;
    }
    let mut i: usize = 0;
    while i <= n - m
        invariant
            n == class@.len(),
            m == name@.len(),
            0 < m <= n,
            i <= n - m + 1,
            forall|j: int| 0 <= j < i ==> !name_at(class@, name@, j),
        decreases n - m + 1 - i,
    {
        if name_stands_at(class, name, n, m, i) {
            return true;
        }
        i = i + 1;
    }
    false
}

/// Whether the element `root` contains the element `node`.
pub fn contains(page: &Page, root: usize, node: usize) -> (r: bool)
    ensures
        r == page@.contains(root as int, node as int),
{
    let n = page.elements.len();
    if root >= n || node >= n {
        return false;
    }
    let mut current = node;
    let mut steps = n;
    loop
        invariant
            n == page.elements.len(),
            n == page@.elements.len(),
            root < n,
            current < n,
            steps <= n,
            page@.contains(root as int, node as int) == within(
                page@.elements,
                root as int,
                current as int,
                steps as nat,
            ),
        decreases steps,
    {
        if current == root {
            return true;
        }
        if steps == 0 {
            return false;
        }
        assert(page@.elements[current as int].parent == page.elements[current as int].parent);
        match page.elements[current].parent {
            Some(p) => {
                if p >= n {
                    return false;
                }
                current = p;
                steps = steps - 1;
            },
            None => {
                return false;
            },
        }
    }
}

/// All descendants of `root` that list the class `name`, in document order.
pub fn query_selector_all(page: &Page, root: usize, name: &str) -> (r: Vec<usize>)
    ensures
        r@ == page@.select_all(root as int, name@),
        forall|k: int| 0 <= k < r@.len() ==> r@[k] < page@.elements.len(),
{
    let n = page.elements.len();
    let mut found: Vec<usize> = Vec::new();
    let mut i: usize = 0;
    while i < n
        invariant
            i <= n,
            n == page.elements.len(),
            n == page@.elements.len(),
            found@ == select_below(page@.elements, root as int, name@, i as int),
            forall|k: int| 0 <= k < found@.len() ==> found@[k] < n,
        decreases n - i,
    {
        assert(page@.elements[i as int].class == page.elements[i as int].class@);
        if i != root && contains(page, root, i) && class_listed(
            page.elements[i].class.as_str(),
            name,
        ) {
            found.push(i);
        }
        i = i + 1;
    }
    found
}

/// The first source element below `root` in document order.
pub fn first_source(page: &Page, root: usize) -> (r: Option<usize>)
    ensures
        index_view(r) == page@.first_source(root as int),
        r matches Some(i) ==> i < page@.elements.len(),
{
    let n = page.elements.len();
    let mut i: usize = 0;
    while i < n
        invariant
            i <= n,
            n == page.elements.len(),
            n == page@.elements.len(),
            first_source_below(page@.elements, root as int, i as int) is None,
        decreases n - i,
    {
        assert(page@.elements[i as int].kind == page.elements[i as int].kind);
        let is_source = match page.elements[i].kind {
            Kind::Source => true,
            _ => false,
        };
        if is_source && i != root && contains(page, root, i) {
            proof {
                assert(first_source_below(page@.elements, root as int, i + 1) == Some(i as int));
                first_source_stays(page@.elements, root as int, i + 1, n as int);
            }
            return Some(i);
        }
        i = i + 1;
    }
    None
}

/// A search that has found a source keeps it when more elements are
/// searched.
pub proof fn first_source_stays(elements: Seq<ElementView>, root: int, k: int, n: int)
    requires
        k <= n,
        first_source_below(elements, root, k) is Some,
    ensures
        first_source_below(elements, root, n) == first_source_below(elements, root, k),
    decreases n - k,
{
    if k < n {
        first_source_stays(elements, root, k, n - 1);
    }
}


/// Whether two pages hold the same document as far as finding elements by
/// id goes: the same host, and the same ids in the same places.
pub open spec fn same_ids(p: PageView, q: PageView) -> bool {
    &&& p.has_window == q.has_window
    &&& p.has_document == q.has_document
    &&& p.elements.len() == q.elements.len()
    &&& forall|i: int| 0 <= i < p.elements.len() ==> p.elements[i].id == q.elements[i].id
}

/// Pages with the same ids find the same element for every id.
pub proof fn same_ids_locate(p: PageView, q: PageView, id: Seq<char>)
    requires
        same_ids(p, q),
    ensures
        p.element_with_id(id) == q.element_with_id(id),
        p.locate(id) == q.locate(id),
{
    same_ids_same_elements(p.elements, q.elements, id, p.elements.len() as int);
}

/// An element that is found lies in the document and carries the id it was
/// found by.
pub proof fn located_element(p: PageView, id: Seq<char>)
    ensures
        p.locate(id) matches Ok(i) ==> 0 <= i < p.elements.len() && p.elements[i].id == id,
{
    first_with_id_is_least(p.elements, id, p.elements.len() as int);
}


/// Whether two documents have the same shape and the same classes: each
/// element has the same parent and the same `class` attribute in both.
pub open spec fn same_tree(p: Seq<ElementView>, q: Seq<ElementView>) -> bool {
    &&& p.len() == q.len()
    &&& forall|i: int| 0 <= i < p.len() ==> p[i].parent == q[i].parent && p[i].class == q[i].class
}

/// In documents of the same shape the same elements lie within one another.
pub proof fn same_tree_within(
    p: Seq<ElementView>,
    q: Seq<ElementView>,
    root: int,
    node: int,
    steps: nat,
)
    requires
        same_tree(p, q),
        0 <= node < p.len(),
    ensures
        within(p, root, node, steps) == within(q, root, node, steps),
    decreases steps,
{
    if node != root && steps > 0 {
        match p[node].parent {
            Some(parent) => {
                if parent < p.len() {
                    same_tree_within(p, q, root, parent as int, (steps - 1) as nat);
                }
            },
            None => {},
        }
    }
}

/// In documents of the same shape and classes a selection by class finds
/// the same elements.
pub proof fn same_tree_select(
    p: Seq<ElementView>,
    q: Seq<ElementView>,
    root: int,
    name: Seq<char>,
    n: int,
)
    requires
        same_tree(p, q),
        n <= p.len(),
    ensures
        select_below(p, root, name, n) == select_below(q, root, name, n),
    decreases n,
{
    if n > 0 {
        same_tree_select(p, q, root, name, n - 1);
        same_tree_within(p, q, root, n - 1, p.len());
    }
}

/// A selection lists elements of the document in rising order, each once,
/// and never the root it was made below.
pub proof fn selection_rises(elements: Seq<ElementView>, root: int, name: Seq<char>, n: int)
    requires
        n <= elements.len() <= usize::MAX,
    ensures
        ({
            let found = select_below(elements, root, name, n);
            &&& forall|k: int| 0 <= k < found.len() ==> 0 <= #[trigger] found[k] < n && found[k] != root
            &&& forall|j: int, k: int| 0 <= j < k < found.len() ==> found[j] < found[k]
        }),
    decreases n,
{
    if n > 0 {
        selection_rises(elements, root, name, n - 1);
        let before = select_below(elements, root, name, n - 1);
        let found = select_below(elements, root, name, n);
        if selected(elements, root, name, n - 1) {
            assert(found == before.push((n - 1) as usize));
            assert forall|k: int| 0 <= k < found.len() implies 0 <= #[trigger] found[k] < n
                && found[k] != root by {
                if k < before.len() {
                    assert(found[k] == before[k]);
                }
            }
            assert forall|j: int, k: int| 0 <= j < k < found.len() implies found[j] < found[k] by {
                assert(found[j] == before[j]);
                if k < before.len() {
                    assert(found[k] == before[k]);
                }
            }
        }
    }
}

} // verus!
