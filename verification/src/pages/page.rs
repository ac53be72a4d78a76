use vstd::prelude::*;

use crate::object::{BucketItem, FileDetail, FileVersion, Object, ObjectItem};
use crate::pages::object_preview::ObjectPreviewPage;
use crate::util::preview_lines_of;
use crate::widget::ScrollListState;

verus! {

/// The screen shown while the storage client initializes; it has no state.
#[derive(Debug)]
pub struct InitializingPage {}

impl InitializingPage {
    pub fn new() -> InitializingPage {
        InitializingPage {  }
    }
}

/// The bucket listing screen.
#[derive(Debug)]
pub struct BucketListPage {
    bucket_items: Vec<BucketItem>,
    list_state: ScrollListState,
}

impl BucketListPage {
    pub closed spec fn spec_items(&self) -> Seq<BucketItem> {
        self.bucket_items@
    }

    pub fn new(bucket_items: Vec<BucketItem>) -> (p: BucketListPage)
        ensures
            p.spec_items() == bucket_items@,
    {
        BucketListPage { bucket_items, list_state: ScrollListState::new() }
    }

    pub fn bucket_items(&self) -> (r: &Vec<BucketItem>)
        ensures
            r@ == self.spec_items(),
    {
        &self.bucket_items
    }
}

/// The object listing screen.
#[derive(Debug)]
pub struct ObjectListPage {
    object_items: Vec<ObjectItem>,
    list_state: ScrollListState,
}

impl ObjectListPage {
    pub closed spec fn spec_items(&self) -> Seq<ObjectItem> {
        self.object_items@
    }

    pub fn new(object_items: Vec<ObjectItem>) -> (p: ObjectListPage)
        ensures
            p.spec_items() == object_items@,
    {
        ObjectListPage { object_items, list_state: ScrollListState::new() }
    }

    pub fn object_items(&self) -> (r: &Vec<ObjectItem>)
        ensures
            r@ == self.spec_items(),
    {
        &self.object_items
    }
}

/// The object metadata/version screen.
#[derive(Debug)]
pub struct ObjectDetailPage {
    file_detail: FileDetail,
    file_versions: Vec<FileVersion>,
    object_items: Vec<ObjectItem>,
    list_state: ScrollListState,
}

impl ObjectDetailPage {
    pub closed spec fn spec_file_detail(&self) -> FileDetail {
        self.file_detail
    }

    pub closed spec fn spec_file_versions(&self) -> Seq<FileVersion> {
        self.file_versions@
    }

    pub fn new(
        file_detail: FileDetail,
        file_versions: Vec<FileVersion>,
        object_items: Vec<ObjectItem>,
        list_state: ScrollListState,
    ) -> (p: ObjectDetailPage)
        ensures
            p.spec_file_detail() == file_detail,
            p.spec_file_versions() == file_versions@,
    {
        ObjectDetailPage { file_detail, file_versions, object_items, list_state }
    }

    pub fn file_detail(&self) -> (r: &FileDetail)
        ensures
            *r == self.spec_file_detail(),
    {
        &self.file_detail
    }

    pub fn file_versions(&self) -> (r: &Vec<FileVersion>)
        ensures
            r@ == self.spec_file_versions(),
    {
        &self.file_versions
    }
}

/// The keyboard-help screen.
#[derive(Debug)]
pub struct HelpPage {
    helps: Vec<String>,
}

impl HelpPage {
    pub closed spec fn spec_helps(&self) -> Seq<String> {
        self.helps@
    }

    pub fn new(helps: Vec<String>) -> (p: HelpPage)
        ensures
            p.spec_helps() == helps@,
    {
        HelpPage { helps }
    }

    pub fn helps(&self) -> (r: &Vec<String>)
        ensures
            r@ == self.spec_helps(),
    {
        &self.helps
    }
}

/// One full-screen navigational state. The closed set of variants makes
/// every dispatch exhaustive; the typed accessors below assert the expected
/// variant, a mismatch being a navigation bug and not a runtime condition.
#[derive(Debug)]
pub enum Page {
    Initializing(InitializingPage),
    BucketList(BucketListPage),
    ObjectList(ObjectListPage),
    ObjectDetail(ObjectDetailPage),
    ObjectPreview(ObjectPreviewPage),
    Help(HelpPage),
}

impl Page {
    pub fn of_initializing() -> (p: Page)
        ensures
            p is Initializing,
    {
        Page::Initializing(InitializingPage::new())
    }

    pub fn of_bucket_list(bucket_items: Vec<BucketItem>) -> (p: Page)
        ensures
            p is BucketList,
            p->BucketList_0.spec_items() == bucket_items@,
    {
        Page::BucketList(BucketListPage::new(bucket_items))
    }

    pub fn of_object_list(object_items: Vec<ObjectItem>) -> (p: Page)
        ensures
            p is ObjectList,
            p->ObjectList_0.spec_items() == object_items@,
    {
        Page::ObjectList(ObjectListPage::new(object_items))
    }

    pub fn of_object_detail(
        file_detail: FileDetail,
        file_versions: Vec<FileVersion>,
        object_items: Vec<ObjectItem>,
        list_state: ScrollListState,
    ) -> (p: Page)
        ensures
            p is ObjectDetail,
            p->ObjectDetail_0.spec_file_detail() == file_detail,
            p->ObjectDetail_0.spec_file_versions() == file_versions@,
    {
        Page::ObjectDetail(ObjectDetailPage::new(file_detail, file_versions, object_items, list_state))
    }

    pub fn of_object_preview(file_detail: FileDetail, object: Object, path: String) -> (p: Page)
        ensures
            p is ObjectPreview,
            p->ObjectPreview_0.inv(),
            p->ObjectPreview_0.spec_lines() == preview_lines_of(
                object.bytes@,
                object.content_type@,
            ),
            p->ObjectPreview_0.spec_offset() == 0,
            !p->ObjectPreview_0.dialog_open(),
            p->ObjectPreview_0.spec_file_detail() == file_detail,
            p->ObjectPreview_0.spec_object() == object,
            p->ObjectPreview_0.spec_path() == path@,
    {
        Page::ObjectPreview(ObjectPreviewPage::new(file_detail, object, path))
    }

    pub fn of_help(helps: Vec<String>) -> (p: Page)
        ensures
            p is Help,
            p->Help_0.spec_helps() == helps@,
    {
        Page::Help(HelpPage::new(helps))
    }

    pub fn as_bucket_list(&self) -> (r: &BucketListPage)
        requires
            self is BucketList,
        ensures
            *r == self->BucketList_0,
    {
        match self {
            Page::BucketList(page) => page,
            _ => vstd::pervasive::unreached(),
        }
    }

    pub fn as_mut_bucket_list(&mut self) -> (r: &mut BucketListPage)
        requires
            *old(self) is BucketList,
        ensures
            *r == (*old(self))->BucketList_0,
            *final(self) == Page::BucketList(*final(r)),
    {
        match self {
            Page::BucketList(page) => page,
            _ => vstd::pervasive::unreached(),
        }
    }

    pub fn as_object_list(&self) -> (r: &ObjectListPage)
        requires
            self is ObjectList,
        ensures
            *r == self->ObjectList_0,
    {
        match self {
            Page::ObjectList(page) => page,
            _ => vstd::pervasive::unreached(),
        }
    }

    pub fn as_mut_object_list(&mut self) -> (r: &mut ObjectListPage)
        requires
            *old(self) is ObjectList,
        ensures
            *r == (*old(self))->ObjectList_0,
            *final(self) == Page::ObjectList(*final(r)),
    {
        match self {
            Page::ObjectList(page) => page,
            _ => vstd::pervasive::unreached(),
        }
    }

    pub fn as_object_detail(&self) -> (r: &ObjectDetailPage)
        requires
            self is ObjectDetail,
        ensures
            *r == self->ObjectDetail_0,
    {
        match self {
            Page::ObjectDetail(page) => page,
            _ => vstd::pervasive::unreached(),
        }
    }

    pub fn as_mut_object_detail(&mut self) -> (r: &mut ObjectDetailPage)
        requires
            *old(self) is ObjectDetail,
        ensures
            *r == (*old(self))->ObjectDetail_0,
            *final(self) == Page::ObjectDetail(*final(r)),
    {
        match self {
            Page::ObjectDetail(page) => page,
            _ => vstd::pervasive::unreached(),
        }
    }

    pub fn as_object_preview(&self) -> (r: &ObjectPreviewPage)
        requires
            self is ObjectPreview,
        ensures
            *r == self->ObjectPreview_0,
    {
        match self {
            Page::ObjectPreview(page) => page,
            _ => vstd::pervasive::unreached(),
        }
    }

    pub fn as_mut_object_preview(&mut self) -> (r: &mut ObjectPreviewPage)
        requires
            *old(self) is ObjectPreview,
        ensures
            *r == (*old(self))->ObjectPreview_0,
            *final(self) == Page::ObjectPreview(*final(r)),
    {
        match self {
            Page::ObjectPreview(page) => page,
            _ => vstd::pervasive::unreached(),
        }
    }
}

/// The navigation history: an ordered, never-empty stack of pages whose top
/// is the one current page. Back-navigation pops and recovers the previous
/// page exactly as it was left.
pub struct PageStack {
    stack: Vec<Page>,
}

impl View for PageStack {
    type V = Seq<Page>;

    closed spec fn view(&self) -> Seq<Page> {
        self.stack@
    }
}

impl PageStack {
    /// The bottom page always exists; it is seeded at startup and `pop`
    /// requires more than one page, so the stack is never emptied.
    pub open spec fn inv(&self) -> bool {
        self@.len() >= 1
    }

    pub fn new() -> (s: PageStack)
        ensures
            s.inv(),
            s@.len() == 1,
            s@[0] is Initializing,
    {
        let mut stack: Vec<Page> = Vec::new();
        stack.push(Page::of_initializing());
        PageStack { stack }
    }

    pub fn len(&self) -> (n: usize)
        ensures
            n == self@.len(),
    {
        self.stack.len()
    }

    /// Navigates forward: the pushed page becomes current.
    pub fn push(&mut self, page: Page)
        ensures
            final(self).inv(),
            final(self)@ == old(self)@.push(page),
    {
        self.stack.push(page);
    }

    /// Navigates back: removes and returns the current page. The root page
    /// is never popped; asking to is a navigation bug, not a runtime
    /// condition, so it is ruled out rather than handled.
    pub fn pop(&mut self) -> (page: Page)
        requires
            old(self)@.len() > 1,
        ensures
            final(self).inv(),
            page == old(self)@.last(),
            final(self)@ == old(self)@.drop_last(),
    {
        let page = self.stack.pop().unwrap();
        proof {
            assert(final(self).stack@ =~= old(self).stack@.drop_last());
        }
        page
    }

    /// Drops every page above the root; idempotent.
    pub fn clear(&mut self)
        requires
            old(self).inv(),
        ensures
            final(self).inv(),
            final(self)@ == old(self)@.take(1),
    {
        self.stack.truncate(1);
        proof {
            assert(final(self).stack@ =~= old(self).stack@.take(1));
        }
    }

    /// The current page: the top of the stack, which always exists.
    pub fn current_page(&self) -> (page: &Page)
        requires
            self.inv(),
        ensures
            *page == self@.last(),
    {
        &self.stack[self.stack.len() - 1]
    }

    pub fn current_page_mut(&mut self) -> (page: &mut Page)
        requires
            old(self).inv(),
        ensures
            *page == old(self)@.last(),
            final(self)@ == old(self)@.update(old(self)@.len() - 1, *final(page)),
            final(self).inv(),
    {
        let n = self.stack.len();
        &mut self.stack[n - 1]
    }

    /// The root page.
    pub fn head(&self) -> (page: &Page)
        requires
            self.inv(),
        ensures
            *page == self@[0],
    {
        &self.stack[0]
    }

    /// All pages, bottom first.
    pub fn iter(&self) -> (pages: &[Page])
        ensures
            pages@ == self@,
    {
        self.stack.as_slice()
    }
}

/// The stack contents after pushing each page of `ps` in order.
pub open spec fn push_all(s: Seq<Page>, ps: Seq<Page>) -> Seq<Page> {
    s + ps
}

/// The stack contents after popping `n` pages.
pub open spec fn pop_n(s: Seq<Page>, n: nat) -> Seq<Page> {
    s.take(s.len() - n)
}

/// One push followed by one pop returns the popped page and leaves the
/// stack as it was.
pub proof fn lemma_push_then_pop(s: Seq<Page>, p: Page)
    ensures
        s.push(p).drop_last() == s,
        s.push(p).last() == p,
{
    assert(s.push(p).drop_last() =~= s);
}

/// Page-stack law: pushing any sequence of pages and then popping exactly
/// as many returns the stack — including the then-current page and all of
/// its internal state — to what it was.
pub proof fn lemma_push_pop_round_trip(s: Seq<Page>, ps: Seq<Page>)
    ensures
        pop_n(push_all(s, ps), ps.len()) == s,
{
    assert(pop_n(push_all(s, ps), ps.len()) =~= s);
}

} // verus!
