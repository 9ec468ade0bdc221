use vstd::prelude::*;

verus! {

/// Page size used when a request does not name one.
pub const DEFAULT_PAGE_SIZE: u64 = 10;

/// Number of pages needed for `total` records at `page_size` records per
/// page: the total divided by the page size, rounded up. A page size of
/// zero yields zero pages; no division is attempted in that case.
pub open spec fn spec_pages(total: u64, page_size: u64) -> int {
    if page_size == 0 {
        0
    } else if total as int % page_size as int == 0 {
        total as int / page_size as int
    } else {
        total as int / page_size as int + 1
    }
}

/// Offset of the first record of page `page_no` (pages are 1-based):
/// `(page_no - 1) * page_size`, or 0 for the degenerate page number 0.
pub open spec fn spec_offset(page_no: u64, page_size: u64) -> int {
    if page_no > 0 {
        (page_no - 1) * page_size
    } else {
        0
    }
}

proof fn lemma_pages_fits(total: u64, page_size: u64)
    ensures
        0 <= spec_pages(total, page_size) <= u64::MAX,
{
    if page_size > 0 {
        let t = total as int;
        let p = page_size as int;
        assert(t / p <= t && 0 <= t / p) by (nonlinear_arith)
            requires
                p >= 1,
                t >= 0,
        ;
        if t % p != 0 {
            assert(p != 1) by {
                if p == 1 {
                    assert(t % 1int == 0) by (nonlinear_arith);
                }
            }
            assert(t / p < t) by (nonlinear_arith)
                requires
                    p >= 2,
                    t >= 0,
                    t % p != 0,
            ;
        }
    }
}

/// Capabilities of a paging request: the four parameters, and the two
/// derived quantities `get_pages` and `offset`.
pub trait IPageRequest: Sized {
    spec fn spec_page_size(&self) -> u64;

    spec fn spec_page_no(&self) -> u64;

    spec fn spec_total(&self) -> u64;

    spec fn spec_search_count(&self) -> bool;

    fn get_page_size(&self) -> (r: u64)
        ensures
            r == self.spec_page_size(),
    ;

    fn get_page_no(&self) -> (r: u64)
        ensures
            r == self.spec_page_no(),
    ;

    fn get_total(&self) -> (r: u64)
        ensures
            r == self.spec_total(),
    ;

    fn is_search_count(&self) -> (r: bool)
        ensures
            r == self.spec_search_count(),
    ;

    fn set_total(self, arg: u64) -> (r: Self)
        ensures
            r.spec_total() == arg,
            r.spec_page_size() == self.spec_page_size(),
            r.spec_page_no() == self.spec_page_no(),
            r.spec_search_count() == self.spec_search_count(),
    ;

    fn set_page_size(self, arg: u64) -> (r: Self)
        ensures
            r.spec_page_size() == arg,
            r.spec_total() == self.spec_total(),
            r.spec_page_no() == self.spec_page_no(),
            r.spec_search_count() == self.spec_search_count(),
    ;

    fn set_page_no(self, arg: u64) -> (r: Self)
        ensures
            r.spec_page_no() == arg,
            r.spec_total() == self.spec_total(),
            r.spec_page_size() == self.spec_page_size(),
            r.spec_search_count() == self.spec_search_count(),
    ;

    fn set_search_count(self, arg: bool) -> (r: Self)
        ensures
            r.spec_search_count() == arg,
            r.spec_total() == self.spec_total(),
            r.spec_page_size() == self.spec_page_size(),
            r.spec_page_no() == self.spec_page_no(),
    ;

    /// Total number of pages, per `spec_pages`.
    fn get_pages(&self) -> (r: u64)
        ensures
            r == spec_pages(self.spec_total(), self.spec_page_size()),
    {
        let page_size = self.get_page_size();
        if page_size == 0 {
            return 0;
        }
        let total = self.get_total();
        proof {
            lemma_pages_fits(total, page_size);
        }
        let mut pages = total / page_size;
        if total % page_size != 0 {
            pages = pages + 1;
        }
        pages
    }

    /// Offset of the first record of the requested page, per `spec_offset`.
    /// The product must fit the machine word.
    fn offset(&self) -> (r: u64)
        requires
            spec_offset(self.spec_page_no(), self.spec_page_size()) <= u64::MAX,
        ensures
            r == spec_offset(self.spec_page_no(), self.spec_page_size()),
    {
        let page_no = self.get_page_no();
        let page_size = self.get_page_size();
        if page_no > 0 {
            (page_no - 1) * page_size
        } else {
            0
        }
    }
}

/// A page of records together with its paging parameters.
pub trait IPage<T>: IPageRequest {
    spec fn spec_records(&self) -> Seq<T>;

    fn get_records(&self) -> (r: &Vec<T>)
        ensures
            r@ == self.spec_records(),
    ;

    fn get_records_mut(&mut self) -> (r: &mut Vec<T>);

    fn set_records(self, arg: Vec<T>) -> (r: Self)
        ensures
            r.spec_records() == arg@,
            r.spec_total() == self.spec_total(),
            r.spec_page_size() == self.spec_page_size(),
            r.spec_page_no() == self.spec_page_no(),
            r.spec_search_count() == self.spec_search_count(),
    ;
}

/// One page of results.
#[derive(Clone, Debug, PartialEq, Eq)]
pub struct Page<T> {
    /// data
    pub records: Vec<T>,
    /// total number of records
    pub total: u64,
    /// total number of pages
    pub pages: u64,
    /// current page index, 1-based
    pub page_no: u64,
    /// records per page
    pub page_size: u64,
    /// whether a counting query is wanted
    pub search_count: bool,
}

/// A request for one page of results.
#[derive(Clone, Debug, PartialEq, Eq)]
pub struct PageRequest {
    /// total number of records
    pub total: u64,
    /// current page index, 1-based
    pub page_no: u64,
    /// records per page
    pub page_size: u64,
    /// whether a counting query is wanted
    pub search_count: bool,
}

impl PageRequest {
    pub fn new(page_no: u64, page_size: u64) -> (r: Self)
        ensures
            r.page_no == if page_no < 1 { 1u64 } else { page_no },
            r.page_size == page_size,
            r.total == DEFAULT_PAGE_SIZE,
            r.search_count,
    {
        PageRequest::new_total(page_no, page_size, DEFAULT_PAGE_SIZE)
    }

    pub fn new_option(page_no: &Option<u64>, page_size: &Option<u64>) -> (r: Self)
        ensures
            r.page_no == {
                let n = if page_no is Some { page_no->0 } else { 1u64 };
                if n < 1 { 1u64 } else { n }
            },
            r.page_size == if page_size is Some { page_size->0 } else { DEFAULT_PAGE_SIZE },
            r.total == DEFAULT_PAGE_SIZE,
            r.search_count,
    {
        let no = match page_no {
            Some(n) => *n,
            None => 1,
        };
        let size = match page_size {
            Some(s) => *s,
            None => DEFAULT_PAGE_SIZE,
        };
        PageRequest::new(no, size)
    }

    pub fn new_total(page_no: u64, page_size: u64, total: u64) -> (r: Self)
        ensures
            r.page_no == if page_no < 1 { 1u64 } else { page_no },
            r.page_size == page_size,
            r.total == total,
            r.search_count,
    {
        PageRequest::new_plugin(String::new(), page_no, page_size, total)
    }

    pub fn new_plugin(plugin: String, page_no: u64, page_size: u64, total: u64) -> (r: Self)
        ensures
            r.page_no == if page_no < 1 { 1u64 } else { page_no },
            r.page_size == page_size,
            r.total == total,
            r.search_count,
    {
        let _ = plugin;
        let page_no = if page_no < 1 { 1 } else { page_no };
        Self { total, page_size, page_no, search_count: true }
    }
}

impl Default for PageRequest {
    fn default() -> (r: Self)
        ensures
            r.total == 0,
            r.page_size == DEFAULT_PAGE_SIZE,
            r.page_no == 1,
            r.search_count,
    {
        PageRequest { total: 0, page_size: DEFAULT_PAGE_SIZE, page_no: 1, search_count: true }
    }
}

impl IPageRequest for PageRequest {
    open spec fn spec_page_size(&self) -> u64 {
        self.page_size
    }

    open spec fn spec_page_no(&self) -> u64 {
        self.page_no
    }

    open spec fn spec_total(&self) -> u64 {
        self.total
    }

    open spec fn spec_search_count(&self) -> bool {
        self.search_count
    }

    fn get_page_size(&self) -> u64 {
        self.page_size
    }

    fn get_page_no(&self) -> u64 {
        self.page_no
    }

    fn get_total(&self) -> u64 {
        self.total
    }

    fn is_search_count(&self) -> bool {
        self.search_count
    }

    fn set_total(self, total: u64) -> Self {
        let mut s = self;
        s.total = total;
        s
    }

    fn set_page_size(self, arg: u64) -> Self {
        let mut s = self;
        s.page_size = arg;
        s
    }

    fn set_page_no(self, arg: u64) -> Self {
        let mut s = self;
        s.page_no = arg;
        s
    }

    fn set_search_count(self, arg: bool) -> Self {
        let mut s = self;
        s.search_count = arg;
        s
    }
}

impl<T> Page<T> {
    pub fn new(current: u64, page_size: u64) -> (r: Self)
        ensures
            r.page_no == if current < 1 { 1u64 } else { current },
            r.page_size == page_size,
            r.total == 0,
            r.pages == spec_pages(0, page_size),
            r.records@ =~= Seq::<T>::empty(),
            r.search_count,
    {
        Page::new_total(current, page_size, 0)
    }

    pub fn new_option(current: &Option<u64>, page_size: &Option<u64>) -> (r: Self)
        ensures
            r.page_no == {
                let n = if current is Some { current->0 } else { 1u64 };
                if n < 1 { 1u64 } else { n }
            },
            r.page_size == if page_size is Some { page_size->0 } else { DEFAULT_PAGE_SIZE },
            r.total == 0,
            r.pages == spec_pages(
                0,
                if page_size is Some { page_size->0 } else { DEFAULT_PAGE_SIZE },
            ),
            r.records@ =~= Seq::<T>::empty(),
            r.search_count,
    {
        let no = match current {
            Some(n) => *n,
            None => 1,
        };
        let size = match page_size {
            Some(s) => *s,
            None => DEFAULT_PAGE_SIZE,
        };
        Page::new(no, size)
    }

    pub fn new_total(page_no: u64, page_size: u64, total: u64) -> (r: Self)
        ensures
            r.page_no == if page_no < 1 { 1u64 } else { page_no },
            r.page_size == page_size,
            r.total == total,
            r.pages == spec_pages(total, page_size),
            r.records@ =~= Seq::<T>::empty(),
            r.search_count,
    {
        let pages = pages_of(total, page_size);
        let page_no = if page_no < 1 { 1 } else { page_no };
        Self { total, pages, page_size, page_no, records: Vec::new(), search_count: true }
    }
}

/// Executable counterpart of `spec_pages`.
fn pages_of(total: u64, page_size: u64) -> (r: u64)
    ensures
        r == spec_pages(total, page_size),
{
    if page_size == 0 {
        return 0;
    }
    proof {
        lemma_pages_fits(total, page_size);
    }
    let mut pages = total / page_size;
    if total % page_size != 0 {
        pages = pages + 1;
    }
    pages
}

impl<T> Default for Page<T> {
    fn default() -> (r: Self)
        ensures
            r.records@ =~= Seq::<T>::empty(),
            r.total == 0,
            r.pages == 0,
            r.page_size == DEFAULT_PAGE_SIZE,
            r.page_no == 1,
            r.search_count,
    {
        Page {
            records: Vec::new(),
            total: 0,
            pages: 0,
            page_size: DEFAULT_PAGE_SIZE,
            page_no: 1,
            search_count: true,
        }
    }
}

impl<T> IPageRequest for Page<T> {
    open spec fn spec_page_size(&self) -> u64 {
        self.page_size
    }

    open spec fn spec_page_no(&self) -> u64 {
        self.page_no
    }

    open spec fn spec_total(&self) -> u64 {
        self.total
    }

    open spec fn spec_search_count(&self) -> bool {
        self.search_count
    }

    fn get_page_size(&self) -> u64 {
        self.page_size
    }

    fn get_page_no(&self) -> u64 {
        self.page_no
    }

    fn get_total(&self) -> u64 {
        self.total
    }

    fn is_search_count(&self) -> bool {
        self.search_count
    }

    fn set_total(self, total: u64) -> Self {
        let mut s = self;
        s.total = total;
        s
    }

    fn set_page_size(self, arg: u64) -> Self {
        let mut s = self;
        s.page_size = arg;
        s
    }

    fn set_page_no(self, arg: u64) -> Self {
        let mut s = self;
        s.page_no = arg;
        s
    }

    fn set_search_count(self, arg: bool) -> Self {
        let mut s = self;
        s.search_count = arg;
        s
    }
}

impl<T> IPage<T> for Page<T> {
    open spec fn spec_records(&self) -> Seq<T> {
        self.records@
    }

    fn get_records(&self) -> &Vec<T> {
        &self.records
    }

    fn get_records_mut(&mut self) -> &mut Vec<T> {
        &mut self.records
    }

    fn set_records(self, arg: Vec<T>) -> Self {
        let mut s = self;
        s.records = arg;
        s
    }
}

impl<V> Page<V> {
    /// Convert a page of `T` records into a page of `V` records, keeping
    /// every paging parameter and converting each record with `V::from`.
    pub fn from<T>(arg: Page<T>) -> (r: Self) where V: From<T>
        ensures
            r.page_no == arg.page_no,
            r.page_size == arg.page_size,
            r.pages == arg.pages,
            r.total == arg.total,
            r.search_count == arg.search_count,
            r.records@.len() == arg.records@.len(),
            forall|i: int|
                0 <= i < arg.records@.len() ==> call_ensures(
                    V::from,
                    (arg.records@[i],),
                    #[trigger] r.records@[i],
                ),
    {
        let ghost old_records = arg.records@;
        let mut p = Page::<V>::new(arg.page_no, arg.page_size);
        p.pages = arg.pages;
        p.page_no = arg.page_no;
        p.page_size = arg.page_size;
        p.total = arg.total;
        p.search_count = arg.search_count;
        let mut records: Vec<V> = Vec::new();
        let mut source = arg.records;
        while source.len() > 0
            invariant
                records@.len() + source@.len() == old_records.len(),
                source@ =~= old_records.subrange(records@.len() as int, old_records.len() as int),
                forall|j: int|
                    0 <= j < records@.len() ==> call_ensures(
                        V::from,
                        (old_records[j],),
                        #[trigger] records@[j],
                    ),
            decreases source@.len(),
        {
            let x: T = source.remove(0);
            let converted = V::from(x);
            records.push(converted);
        }
        p.records = records;
        p
    }
}

} // verus!
