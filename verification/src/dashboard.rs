//! The dashboard: which cards it shows, how they fill the grid, and how long
//! the top-applications and top-processes lists beside them are.

use vstd::prelude::*;

use crate::monitor::Message;
use crate::nav::{spec_title_id, NavPage};

verus! {

/// What a GPU of the latest sample can show on the dashboard.
#[derive(Clone, Copy, Debug, PartialEq, Eq, Structural)]
pub struct GpuCardSource {
    /// The GPU reports its utilisation.
    pub has_usage: bool,
    /// The GPU reports both the memory in use and its total memory.
    pub has_vram: bool,
}

/// A dashboard card.
#[derive(Clone, Copy, Debug, PartialEq, Eq, Structural)]
pub enum CardKind {
    Cpu,
    Memory,
    Disk,
    Network,
    /// Utilisation of the GPU at this position of the sample.
    GpuUsage(usize),
    /// Memory of the GPU at this position of the sample.
    GpuVram(usize),
}

/// The cards of the GPUs `gpus[..n]`: for each, its utilisation card if it
/// reports utilisation, then its memory card if it reports memory.
pub open spec fn gpu_cards(gpus: Seq<GpuCardSource>, n: int) -> Seq<CardKind>
    decreases n,
{
    if n <= 0 {
        Seq::empty()
    } else {
        let g = gpus[n - 1];
        gpu_cards(gpus, n - 1) + (if g.has_usage {
            seq![CardKind::GpuUsage((n - 1) as usize)]
        } else {
            Seq::empty()
        }) + (if g.has_vram {
            seq![CardKind::GpuVram((n - 1) as usize)]
        } else {
            Seq::empty()
        })
    }
}

/// The dashboard's cards: CPU, memory, disk and network, then the GPU cards.
pub open spec fn spec_dashboard_cards(gpus: Seq<GpuCardSource>) -> Seq<CardKind> {
    seq![CardKind::Cpu, CardKind::Memory, CardKind::Disk, CardKind::Network] + gpu_cards(
        gpus,
        gpus.len() as int,
    )
}

/// The cards of the dashboard for a sample reporting `gpus`.
pub fn dashboard_cards(gpus: &Vec<GpuCardSource>) -> (cards: Vec<CardKind>)
    requires
        gpus.len() <= usize::MAX / 2 - 4,
    ensures
        cards@ == spec_dashboard_cards(gpus@),
{
    let mut cards: Vec<CardKind> = Vec::new();
    cards.push(CardKind::Cpu);
    cards.push(CardKind::Memory);
    cards.push(CardKind::Disk);
    cards.push(CardKind::Network);
    let n = gpus.len();
    let mut i: usize = 0;
    assert(cards@ =~= seq![CardKind::Cpu, CardKind::Memory, CardKind::Disk, CardKind::Network]
        + gpu_cards(gpus@, 0));
    while i < n
        invariant
            n == gpus.len(),
            n <= usize::MAX / 2 - 4,
            i <= n,
            cards@ == seq![CardKind::Cpu, CardKind::Memory, CardKind::Disk, CardKind::Network]
                + gpu_cards(gpus@, i as int),
        decreases n - i,
    {
        let ghost before = cards@;
        if gpus[i].has_usage {
            cards.push(CardKind::GpuUsage(i));
        }
        if gpus[i].has_vram {
            cards.push(CardKind::GpuVram(i));
        }
        proof {
            let head = seq![CardKind::Cpu, CardKind::Memory, CardKind::Disk, CardKind::Network];
            let g = gpus@[i as int];
            let u = if g.has_usage {
                seq![CardKind::GpuUsage(i)]
            } else {
                Seq::<CardKind>::empty()
            };
            let v = if g.has_vram {
                seq![CardKind::GpuVram(i)]
            } else {
                Seq::<CardKind>::empty()
            };
            assert(gpu_cards(gpus@, i + 1) == gpu_cards(gpus@, i as int) + u + v);
            assert(cards@ =~= head + (gpu_cards(gpus@, i as int) + u + v));
        }
        i = i + 1;
    }
    cards
}

proof fn lemma_concat_contains<A>(a: Seq<A>, b: Seq<A>, x: A)
    ensures
        (a + b).contains(x) <==> a.contains(x) || b.contains(x),
{
    if (a + b).contains(x) {
        let i = choose|i: int| 0 <= i < (a + b).len() && (a + b)[i] == x;
        if i < a.len() {
            assert(a[i] == x);
        } else {
            assert(b[i - a.len()] == x);
        }
    }
    if a.contains(x) {
        let i = choose|i: int| 0 <= i < a.len() && a[i] == x;
        assert((a + b)[i] == x);
    }
    if b.contains(x) {
        let i = choose|i: int| 0 <= i < b.len() && b[i] == x;
        assert((a + b)[i + a.len()] == x);
    }
}

proof fn lemma_single_contains<A>(a: A, x: A)
    ensures
        seq![a].contains(x) <==> a == x,
{
    if a == x {
        assert(seq![a][0] == x);
    }
}

proof fn lemma_gpu_cards_contain(gpus: Seq<GpuCardSource>, n: int, c: CardKind)
    requires
        0 <= n <= gpus.len(),
        gpus.len() <= usize::MAX,
    ensures
        gpu_cards(gpus, n).contains(c) <==> match c {
            CardKind::GpuUsage(i) => i < n && gpus[i as int].has_usage,
            CardKind::GpuVram(i) => i < n && gpus[i as int].has_vram,
            _ => false,
        },
    decreases n,
{
    if n <= 0 {
        assert(!Seq::<CardKind>::empty().contains(c));
    } else {
        lemma_gpu_cards_contain(gpus, n - 1, c);
        let g = gpus[n - 1];
        let k = (n - 1) as usize;
        assert(k == n - 1);
        let u = if g.has_usage {
            seq![CardKind::GpuUsage(k)]
        } else {
            Seq::<CardKind>::empty()
        };
        let v = if g.has_vram {
            seq![CardKind::GpuVram(k)]
        } else {
            Seq::<CardKind>::empty()
        };
        assert(gpu_cards(gpus, n) == gpu_cards(gpus, n - 1) + u + v);
        lemma_concat_contains(gpu_cards(gpus, n - 1) + u, v, c);
        lemma_concat_contains(gpu_cards(gpus, n - 1), u, c);
        assert(!Seq::<CardKind>::empty().contains(c));
        lemma_single_contains(CardKind::GpuUsage(k), c);
        lemma_single_contains(CardKind::GpuVram(k), c);
    }
}

/// What the dashboard shows for a sample reporting `gpus`: the CPU, memory,
/// disk and network cards first, each once; then, for each GPU position
/// `i`, its utilisation card exactly when that GPU reports utilisation and
/// its memory card exactly when it reports memory (the two independently);
/// no card of a position past the last GPU.
pub proof fn cards_follow_the_gpus(gpus: Seq<GpuCardSource>, c: CardKind)
    requires
        gpus.len() <= usize::MAX,
    ensures
        spec_dashboard_cards(gpus).len() >= 4,
        spec_dashboard_cards(gpus)[0] == CardKind::Cpu,
        spec_dashboard_cards(gpus)[1] == CardKind::Memory,
        spec_dashboard_cards(gpus)[2] == CardKind::Disk,
        spec_dashboard_cards(gpus)[3] == CardKind::Network,
        c matches CardKind::GpuUsage(i) ==> (spec_dashboard_cards(gpus).contains(c) <==> (i
            < gpus.len() && gpus[i as int].has_usage)),
        c matches CardKind::GpuVram(i) ==> (spec_dashboard_cards(gpus).contains(c) <==> (i
            < gpus.len() && gpus[i as int].has_vram)),
        (c is Cpu || c is Memory || c is Disk || c is Network) ==> spec_dashboard_cards(
            gpus,
        ).contains(c) && !spec_dashboard_cards(gpus).subrange(4, spec_dashboard_cards(gpus).len() as int).contains(c),
{
    let head = seq![CardKind::Cpu, CardKind::Memory, CardKind::Disk, CardKind::Network];
    let tail = gpu_cards(gpus, gpus.len() as int);
    lemma_gpu_cards_contain(gpus, gpus.len() as int, c);
    lemma_concat_contains(head, tail, c);
    assert(spec_dashboard_cards(gpus).subrange(4, spec_dashboard_cards(gpus).len() as int) =~= tail);
    if c is Cpu {
        assert(head[0] == c);
    } else if c is Memory {
        assert(head[1] == c);
    } else if c is Disk {
        assert(head[2] == c);
    } else if c is Network {
        assert(head[3] == c);
    } else {
        assert(!head.contains(c)) by {
            if head.contains(c) {
                let i = choose|i: int| 0 <= i < head.len() && head[i] == c;
            }
        }
    }
}

impl CardKind {
    /// The identifier of the card's title in the message catalog (GPU
    /// titles take the GPU's position as their `index` argument).
    pub open spec fn spec_title_id(self) -> Seq<char> {
        match self {
            CardKind::Cpu => "cpu"@,
            CardKind::Memory => "memory"@,
            CardKind::Disk => "disk"@,
            CardKind::Network => "network"@,
            CardKind::GpuUsage(_) => "gpu-index"@,
            CardKind::GpuVram(_) => "gpu-vram-index"@,
        }
    }

    /// The identifier of the card's title in the message catalog.
    pub fn title_id(&self) -> (id: String)
        ensures
            id@ == self.spec_title_id(),
            match *self {
                CardKind::Cpu => id@ == "cpu"@,
                CardKind::Memory => id@ == "memory"@,
                CardKind::Disk => id@ == "disk"@,
                CardKind::Network => id@ == "network"@,
                CardKind::GpuUsage(_) => id@ == "gpu-index"@,
                CardKind::GpuVram(_) => id@ == "gpu-vram-index"@,
            },
    {
        let id = match self {
            CardKind::Cpu => "cpu",
            CardKind::Memory => "memory",
            CardKind::Disk => "disk",
            CardKind::Network => "network",
            CardKind::GpuUsage(_) => "gpu-index",
            CardKind::GpuVram(_) => "gpu-vram-index",
        };
        String::from_str(id)
    }

    /// The message of the card's details button: the card's page, or for a
    /// GPU card the selection of that GPU.
    pub fn message<C, G, I>(&self) -> (m: Message<C, G, I>)
        ensures
            match *self {
                CardKind::Cpu => m == Message::<C, G, I>::NavPage(NavPage::Cpu),
                CardKind::Memory => m == Message::<C, G, I>::NavPage(NavPage::Memory),
                CardKind::Disk => m == Message::<C, G, I>::NavPage(NavPage::Disk),
                CardKind::Network => m == Message::<C, G, I>::NavPage(NavPage::Network),
                CardKind::GpuUsage(i) => m == Message::<C, G, I>::GpuSelect(i),
                CardKind::GpuVram(i) => m == Message::<C, G, I>::GpuSelect(i),
            },
    {
        match self {
            CardKind::Cpu => Message::NavPage(NavPage::Cpu),
            CardKind::Memory => Message::NavPage(NavPage::Memory),
            CardKind::Disk => Message::NavPage(NavPage::Disk),
            CardKind::Network => Message::NavPage(NavPage::Network),
            CardKind::GpuUsage(i) => Message::GpuSelect(*i),
            CardKind::GpuVram(i) => Message::GpuSelect(*i),
        }
    }

    /// Whether the card names the process using most of its resource; the
    /// network card names the busiest interface instead.
    pub fn shows_top_process(&self) -> (r: bool)
        ensures
            r == !(*self is Network),
    {
        match self {
            CardKind::Network => false,
            _ => true,
        }
    }
}

/// The title of a card: the CPU, memory, disk and network cards carry the
/// title of the page their button opens; a GPU card carries the indexed
/// GPU title of its kind ("gpu-index", "gpu-vram-index"), never the plain
/// title of the GPU page.
pub proof fn card_titles(c: CardKind)
    ensures
        match c {
            CardKind::Cpu => c.spec_title_id() == "cpu"@ && c.spec_title_id() == spec_title_id(
                NavPage::Cpu,
            ),
            CardKind::Memory => c.spec_title_id() == "memory"@ && c.spec_title_id()
                == spec_title_id(NavPage::Memory),
            CardKind::Disk => c.spec_title_id() == "disk"@ && c.spec_title_id() == spec_title_id(
                NavPage::Disk,
            ),
            CardKind::Network => c.spec_title_id() == "network"@ && c.spec_title_id()
                == spec_title_id(NavPage::Network),
            CardKind::GpuUsage(_) => c.spec_title_id() == "gpu-index"@,
            CardKind::GpuVram(_) => c.spec_title_id() == "gpu-vram-index"@,
        },
        c.spec_title_id() != spec_title_id(NavPage::Gpu),
{
    reveal_strlit("gpu");
    reveal_strlit("gpu-index");
    reveal_strlit("gpu-vram-index");
    reveal_strlit("cpu");
    reveal_strlit("memory");
    reveal_strlit("disk");
    reveal_strlit("network");
    if c is Cpu {
        assert(c.spec_title_id()[0] != spec_title_id(NavPage::Gpu)[0]);
    } else {
        assert(c.spec_title_id().len() != spec_title_id(NavPage::Gpu).len());
    }
}

/// The number of grid rows for `count` cards, `columns` to a row.
pub open spec fn spec_grid_rows(count: nat, columns: nat) -> nat {
    ((count + columns - 1) as nat) / columns
}

/// How the cards fill the grid: the number of cards in each row, in order.
/// Every row holds `columns` cards but the last, which holds the rest and is
/// padded with empty space up to `columns`.
pub fn grid_rows(count: usize, columns: usize) -> (rows: Vec<usize>)
    requires
        1 <= columns,
        count + columns <= usize::MAX,
    ensures
        rows@.len() == spec_grid_rows(count as nat, columns as nat),
        forall|r: int| 0 <= r < rows@.len() - 1 ==> #[trigger] rows@[r] == columns,
        rows@.len() > 0 ==> 1 <= rows@.last() <= columns,
        rows@.len() > 0 ==> (rows@.len() - 1) * columns + rows@.last() == count,
{
    let mut rows: Vec<usize> = Vec::new();
    let mut col: usize = 0;
    let mut placed: usize = 0;
    while placed < count
        invariant
            placed <= count,
            count + columns <= usize::MAX,
            1 <= columns,
            col <= columns,
            placed == 0 ==> col == 0 && rows@.len() == 0,
            placed > 0 ==> 1 <= col && rows@.len() * columns + col == placed,
            forall|r: int| 0 <= r < rows@.len() ==> #[trigger] rows@[r] == columns,
        decreases count - placed,
    {
        let ghost len0 = rows@.len();
        let ghost col0 = col;
        if col >= columns {
            rows.push(col);
            col = 0;
        }
        col = col + 1;
        placed = placed + 1;
        proof {
            if placed - 1 > 0 {
                if col0 >= columns {
                    assert((len0 + 1) * columns == len0 * columns + columns) by (nonlinear_arith);
                }
            }
        }
    }
    let ghost full = rows@.len();
    if col > 0 {
        rows.push(col);
    }
    proof {
        if count > 0 {
            assert(full * columns + col == count);
            assert(spec_grid_rows(count as nat, columns as nat) == full + 1) by (nonlinear_arith)
                requires
                    full * columns + col == count,
                    1 <= col <= columns,
                    columns >= 1,
            {
                assert(count + columns - 1 == (full + 1) * columns + (col - 1));
                vstd::arithmetic::div_mod::lemma_fundamental_div_mod_converse(
                    (count + columns - 1) as int,
                    columns as int,
                    (full + 1) as int,
                    (col - 1) as int,
                );
            }
        } else {
            assert(spec_grid_rows(0, columns as nat) == 0) by (nonlinear_arith)
                requires
                    columns >= 1,
            ;
        }
    }
    rows
}

/// How the dashboard arranges the graphs and the two top lists.
#[derive(Clone, Copy, Debug, PartialEq, Eq, Structural)]
pub enum DashboardLayout {
    /// Lists above the graphs.
    Small,
    /// Lists in a column beside the graphs.
    Medium,
    /// Lists side by side beside the graphs.
    Large,
}

/// Height of a top list of `count` rows with spacing `space`: padding, a
/// 30-pixel title, the 24-pixel header and its divider, 41 pixels a row,
/// the 32-pixel button.
pub open spec fn list_height(space: nat, count: nat) -> nat {
    4 * space + 87 + 41 * count
}

/// Height of `rows` grid rows of cards with spacing `space`: each card has
/// the 176-pixel graph and padding, rows are separated by the spacing.
pub open spec fn grid_height(space: nat, rows: nat) -> nat {
    rows * (2 * space + 176) + space * (if rows > 0 {
        (rows - 1) as nat
    } else {
        0
    })
}

/// Whether lists of `apps` and `procs` rows fit next to the graphs: their
/// total height (one list in the large layout, where both lists have the
/// same length, two with spacing in the medium one) is not above
/// `limit`.
pub open spec fn lists_fit(layout: DashboardLayout, space: nat, apps: nat, procs: nat, limit: nat) -> bool {
    match layout {
        DashboardLayout::Large => list_height(space, apps) <= limit,
        DashboardLayout::Medium => list_height(space, apps) + space + list_height(space, procs)
            <= limit,
        DashboardLayout::Small => false,
    }
}

/// The next list lengths to try from `apps` and `procs`: the shorter list
/// grows by one (the processes list when they are equal); in the large
/// layout both take the processes list's new length.
pub open spec fn next_counts(layout: DashboardLayout, apps: nat, procs: nat) -> (nat, nat) {
    let (a, p) = if apps < procs {
        (apps + 1, procs)
    } else {
        (apps, procs + 1)
    };
    match layout {
        DashboardLayout::Large => (p, p),
        _ => (a, p),
    }
}

/// List lengths grown from `apps` and `procs` one step at a time while both
/// are under 50 and the next lengths still fit under `limit`.
pub open spec fn grown_counts(
    layout: DashboardLayout,
    space: nat,
    limit: nat,
    apps: nat,
    procs: nat,
) -> (nat, nat)
    decreases 50 - procs, 50 - apps,
{
    if apps < 50 && procs < 50 && layout != DashboardLayout::Small {
        let (a, p) = next_counts(layout, apps, procs);
        if lists_fit(layout, space, a, p, limit) {
            grown_counts(layout, space, limit, a, p)
        } else {
            (apps, procs)
        }
    } else {
        (apps, procs)
    }
}

/// The lengths of the top-applications and top-processes lists: five rows
/// each, grown in the medium and large layouts while the lists stay within
/// the height of the graph rows or of the window, whichever is larger.
pub open spec fn spec_list_counts(
    layout: DashboardLayout,
    grid_rows: nat,
    space: nat,
    height_floor: nat,
) -> (nat, nat) {
    let limit = if grid_height(space, grid_rows) >= height_floor {
        grid_height(space, grid_rows)
    } else {
        height_floor
    };
    grown_counts(layout, space, limit, 5, 5)
}

/// The lengths of the top-applications and top-processes lists for the
/// layout, the number of grid rows, the spacing and the window height
/// (rounded down to whole pixels: the list heights are whole numbers, so
/// comparing with the rounded height decides as the exact one does).
pub fn list_counts(layout: DashboardLayout, grid_rows: usize, space: u16, height_floor: u64) -> (counts: (
    u16,
    u16,
))
    requires
        layout == DashboardLayout::Small || space <= 15849,
    ensures
        (counts.0 as nat, counts.1 as nat) == spec_list_counts(
            layout,
            grid_rows as nat,
            space as nat,
            height_floor as nat,
        ),
{
    let s = space as u128;
    let rows = grid_rows as u128;
    let gaps: u128 = if rows > 0 {
        rows - 1
    } else {
        0
    };
    proof {
        assert(rows * (2 * s + 176) <= 0x1_0000_0000_0000_0000 * (2 * 0x1_0000 + 176))
            by (nonlinear_arith)
            requires
                rows <= 0x1_0000_0000_0000_0000,
                s <= 0x1_0000,
        ;
        assert(s * gaps <= 0x1_0000 * 0x1_0000_0000_0000_0000) by (nonlinear_arith)
            requires
                gaps <= 0x1_0000_0000_0000_0000,
                s <= 0x1_0000,
        ;
    }
    let rows_height: u128 = rows * (2 * s + 176) + s * gaps;
    assert(rows_height == grid_height(space as nat, grid_rows as nat));
    let height = height_floor as u128;
    let limit = if rows_height >= height {
        rows_height
    } else {
        height
    };
    let mut apps: u16 = 5;
    let mut procs: u16 = 5;
    let small = match layout {
        DashboardLayout::Small => true,
        _ => false,
    };
    while apps < 50 && procs < 50 && !small
        invariant
            apps <= 50,
            procs <= 50,
            s == space,
            small || s <= 15849,
            small == (layout == DashboardLayout::Small),
            grown_counts(layout, s as nat, limit as nat, apps as nat, procs as nat)
                == spec_list_counts(layout, grid_rows as nat, space as nat, height_floor as nat),
        ensures
            grown_counts(layout, s as nat, limit as nat, apps as nat, procs as nat) == (
                apps as nat,
                procs as nat,
            ),
        decreases 50 - procs, 50 - apps,
    {
        let (mut next_apps, next_procs) = if apps < procs {
            (apps + 1, procs)
        } else {
            (apps, procs + 1)
        };
        let total: u128 = match layout {
            DashboardLayout::Large => {
                next_apps = next_procs;
                4 * s + 87 + 41 * (next_apps as u128)
            },
            _ => {
                (4 * s + 87 + 41 * (next_apps as u128)) + s + (4 * s + 87 + 41 * (next_procs as u128))
            },
        };
        if total > limit {
            break ;
        }
        apps = next_apps;
        procs = next_procs;
    }
    (apps, procs)
}

/// Shape of list lengths reachable from five and five: equal in the large
/// layout, the processes list at most one longer in the medium one.
pub open spec fn counts_shape(layout: DashboardLayout, apps: nat, procs: nat) -> bool {
    &&& 5 <= apps <= 50
    &&& 5 <= procs <= 50
    &&& match layout {
        DashboardLayout::Large => apps == procs,
        DashboardLayout::Medium => apps <= procs <= apps + 1,
        DashboardLayout::Small => apps == 5 && procs == 5,
    }
}

proof fn lemma_grown_counts(
    layout: DashboardLayout,
    space: nat,
    limit: nat,
    apps: nat,
    procs: nat,
)
    requires
        counts_shape(layout, apps, procs),
        (apps == 5 && procs == 5) || lists_fit(layout, space, apps, procs, limit),
    ensures
        ({
            let (a, p) = grown_counts(layout, space, limit, apps, procs);
            &&& counts_shape(layout, a, p)
            &&& (a == 5 && p == 5) || lists_fit(layout, space, a, p, limit)
            &&& a < 50 && p < 50 && layout != DashboardLayout::Small ==> !lists_fit(
                layout,
                space,
                next_counts(layout, a, p).0,
                next_counts(layout, a, p).1,
                limit,
            )
        }),
    decreases 50 - procs, 50 - apps,
{
    if apps < 50 && procs < 50 && layout != DashboardLayout::Small {
        let (a, p) = next_counts(layout, apps, procs);
        if lists_fit(layout, space, a, p, limit) {
            lemma_grown_counts(layout, space, limit, a, p);
        }
    }
}

/// The top lists: each between 5 and 50 rows; five and five in the small
/// layout; of equal length in the large layout; the processes list at most
/// one row longer in the medium layout. Unless they are the initial five
/// and five, they fit under the limit, and they are as long as they can get:
/// growing them one step more would pass the limit.
pub proof fn list_counts_are_the_longest_that_fit(
    layout: DashboardLayout,
    grid_rows: nat,
    space: nat,
    height_floor: nat,
)
    ensures
        ({
            let (a, p) = spec_list_counts(layout, grid_rows, space, height_floor);
            let limit = if grid_height(space, grid_rows) >= height_floor {
                grid_height(space, grid_rows)
            } else {
                height_floor
            };
            &&& counts_shape(layout, a, p)
            &&& (a == 5 && p == 5) || lists_fit(layout, space, a, p, limit)
            &&& a < 50 && p < 50 && layout != DashboardLayout::Small ==> !lists_fit(
                layout,
                space,
                next_counts(layout, a, p).0,
                next_counts(layout, a, p).1,
                limit,
            )
        }),
{
    let limit = if grid_height(space, grid_rows) >= height_floor {
        grid_height(space, grid_rows)
    } else {
        height_floor
    };
    lemma_grown_counts(layout, space, limit, 5, 5);
}

/// The largest of the values and, among equal largest ones, the last.
pub open spec fn is_last_maximum(values: Seq<u64>, i: int) -> bool {
    &&& 0 <= i < values.len()
    &&& forall|j: int| 0 <= j < i ==> #[trigger] values[j] <= values[i]
    &&& forall|j: int| i < j < values.len() ==> #[trigger] values[j] < values[i]
}

/// Position of the busiest network interface, given each interface's
/// traffic (received plus sent, per second): the last of the largest.
/// None when there are no interfaces.
pub fn busiest(traffic: &Vec<u64>) -> (index: Option<usize>)
    ensures
        index is None <==> traffic@.len() == 0,
        index matches Some(i) ==> is_last_maximum(traffic@, i as int),
{
    if traffic.len() == 0 {
        return None;
    }
    let mut best: usize = 0;
    let mut i: usize = 1;
    while i < traffic.len()
        invariant
            1 <= i <= traffic@.len(),
            best < i,
            forall|j: int| 0 <= j < best ==> #[trigger] traffic@[j] <= traffic@[best as int],
            forall|j: int| best < j < i ==> #[trigger] traffic@[j] < traffic@[best as int],
        decreases traffic@.len() - i,
    {
        if traffic[i] >= traffic[best] {
            best = i;
        }
        i = i + 1;
    }
    Some(best)
}

/// The sum of `values`.
pub open spec fn sum(values: Seq<u64>) -> nat
    decreases values.len(),
{
    if values.len() == 0 {
        0
    } else {
        sum(values.drop_last()) + (values.last() as nat)
    }
}

proof fn lemma_sum_prefix_le(values: Seq<u64>, i: int)
    requires
        0 <= i <= values.len(),
    ensures
        sum(values.take(i)) <= sum(values),
    decreases values.len() - i,
{
    if i < values.len() {
        lemma_sum_prefix_le(values, i + 1);
        assert(values.take(i + 1).drop_last() =~= values.take(i));
    } else {
        assert(values.take(i) =~= values);
    }
}

/// The total of the disks' figures (their used or their total bytes).
pub fn total(values: &Vec<u64>) -> (t: u64)
    requires
        sum(values@) <= u64::MAX,
    ensures
        t == sum(values@),
{
    let mut t: u64 = 0;
    let mut i: usize = 0;
    while i < values.len()
        invariant
            i <= values@.len(),
            t == sum(values@.take(i as int)),
            sum(values@) <= u64::MAX,
        decreases values@.len() - i,
    {
        proof {
            assert(values@.take(i + 1).drop_last() =~= values@.take(i as int));
            lemma_sum_prefix_le(values@, i + 1);
        }
        t = t + values[i];
        i = i + 1;
    }
    assert(values@.take(values@.len() as int) =~= values@);
    t
}

} // verus!
