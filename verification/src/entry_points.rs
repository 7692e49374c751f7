//! The native entry points that the engine needs, by tier, and the routine
//! that decides whether a tier has been resolved.
//!
//! An entry point is resolved by the embedding program, which reports the
//! address it obtained, zero when the lookup came back empty. An entry owned
//! by an extension is looked up only when that extension is enabled; when
//! it is not, the entry is left absent and nothing fails.
use vstd::prelude::*;
use vstd::utf8::encode_utf8;

verus! {

/// How an entry point is reached.
#[derive(Clone, Copy, Debug, PartialEq, Eq, Structural)]
pub enum EntryTier {
    /// A symbol of the loaded native library.
    Exported,
    /// Looked up through the loader entry with no instance.
    Global,
    /// Looked up through the loader entry for a created instance.
    Instance,
    /// Looked up through the device-level lookup for a created device.
    Device,
}

/// One row of an entry table.
#[derive(Clone, Copy, Debug)]
pub struct EntryPoint {
    pub name: &'static str,
    pub tier: EntryTier,
    /// The extension that owns the entry, if one does.
    pub extension: Option<&'static str>,
}

/// What a row of an entry table says: the symbol, its tier and the
/// extension that owns it, if one does.
pub struct EntryRow {
    pub name: Seq<char>,
    pub tier: EntryTier,
    pub extension: Option<Seq<char>>,
}

impl View for EntryPoint {
    type V = EntryRow;

    open spec fn view(&self) -> EntryRow {
        EntryRow {
            name: self.name@,
            tier: self.tier,
            extension: match self.extension {
                None => None,
                Some(extension) => Some(extension@),
            },
        }
    }
}

/// What the rows of a table say, in table order.
pub open spec fn rows_of(table: Seq<EntryPoint>) -> Seq<EntryRow> {
    table.map_values(|e: EntryPoint| e@)
}

/// An entry point together with the address it resolved to.
#[derive(Clone, Copy, Debug)]
pub struct ResolvedEntry {
    pub name: &'static str,
    pub address: u64,
}

/// True when `name` is among `enabled`.
pub open spec fn extension_enabled(enabled: Seq<String>, name: Seq<char>) -> bool {
    exists|i: int| 0 <= i < enabled.len() && (#[trigger] enabled[i])@ == name
}

/// An entry must resolve when no extension owns it, or when the owning
/// extension is enabled.
pub open spec fn entry_wanted(entry: EntryRow, enabled: Seq<String>) -> bool {
    match entry.extension {
        None => true,
        Some(extension) => extension_enabled(enabled, extension),
    }
}

/// The address reported for row `i`, zero when none was reported.
pub open spec fn address_at(addresses: Seq<u64>, i: int) -> u64 {
    if 0 <= i < addresses.len() {
        addresses[i]
    } else {
        0
    }
}

/// Row `i` must resolve and did not.
pub open spec fn entry_unresolved(
    table: Seq<EntryRow>,
    enabled: Seq<String>,
    addresses: Seq<u64>,
    i: int,
) -> bool {
    0 <= i < table.len() && entry_wanted(table[i], enabled) && address_at(addresses, i) == 0
}

/// Row `i` is the first that must resolve and did not.
pub open spec fn is_first_unresolved(
    table: Seq<EntryRow>,
    enabled: Seq<String>,
    addresses: Seq<u64>,
    i: int,
) -> bool {
    &&& entry_unresolved(table, enabled, addresses, i)
    &&& forall|j: int| 0 <= j < i ==> !entry_unresolved(table, enabled, addresses, j)
}

/// Every row that must resolve did.
pub open spec fn all_resolved(
    table: Seq<EntryRow>,
    enabled: Seq<String>,
    addresses: Seq<u64>,
) -> bool {
    forall|j: int| 0 <= j < table.len() ==> !entry_unresolved(table, enabled, addresses, j)
}

/// The wanted rows among the first `n` of the table, each with its name and
/// its address, in table order.
pub open spec fn resolved_prefix(
    table: Seq<EntryRow>,
    enabled: Seq<String>,
    addresses: Seq<u64>,
    n: int,
) -> Seq<(Seq<char>, u64)>
    decreases n,
{
    if n <= 0 {
        Seq::empty()
    } else if entry_wanted(table[n - 1], enabled) {
        resolved_prefix(table, enabled, addresses, n - 1).push(
            (table[n - 1].name, address_at(addresses, n - 1)),
        )
    } else {
        resolved_prefix(table, enabled, addresses, n - 1)
    }
}

/// Names and addresses of a list of resolved entries.
pub open spec fn resolved_view(entries: Seq<ResolvedEntry>) -> Seq<(Seq<char>, u64)> {
    entries.map_values(|e: ResolvedEntry| (e.name@, e.address))
}

/// The address that `entries` holds for `name`: that of the first entry of
/// that name.
pub open spec fn address_of(entries: Seq<(Seq<char>, u64)>, name: Seq<char>) -> Option<u64>
    decreases entries.len(),
{
    if entries.len() == 0 {
        None
    } else if entries[0].0 == name {
        Some(entries[0].1)
    } else {
        address_of(entries.drop_first(), name)
    }
}

/// Start of the message that reports an unresolved entry of a tier.
pub open spec fn unresolved_prefix(tier: EntryTier, owned: bool) -> Seq<char> {
    match tier {
        EntryTier::Exported => "Couldn't load exported Vulkan function: "@,
        EntryTier::Global => "Couldn't load global vulkan function : "@,
        EntryTier::Instance => if owned {
            "Couldn't load instance level extension vulkan function: "@
        } else {
            "Couldn't load instance level vulkan function: "@
        },
        EntryTier::Device => if owned {
            "Couldn't load device level extension vulkan function: "@
        } else {
            "Couldn't load device level vulkan function: "@
        },
    }
}

/// The message that reports `entry` as unresolved: the tier's phrase, then
/// the symbol's name.
pub open spec fn unresolved_message(entry: EntryRow) -> Seq<char> {
    unresolved_prefix(entry.tier, entry.extension is Some) + entry.name
}

/// Tells whether two strings hold the same characters.
pub fn same_text(a: &str, b: &str) -> (r: bool)
    ensures
        r == (a@ == b@),
{
    let x = a.as_bytes();
    let y = b.as_bytes();
    proof {
        vstd::utf8::encode_utf8_decode_utf8(a@);
        vstd::utf8::encode_utf8_decode_utf8(b@);
    }
    if x.len() != y.len() {
        return false;
    }
    let mut i: usize = 0;
    while i < x.len()
        invariant
            i <= x@.len(),
            x@.len() == y@.len(),
            x@ == encode_utf8(a@),
            y@ == encode_utf8(b@),
            forall|k: int| 0 <= k < i ==> x@[k] == y@[k],
        decreases x@.len() - i,
    {
        if x[i] != y[i] {
            return false;
        }
        i = i + 1;
    }
    proof {
        assert(x@ =~= y@);
    }
    true
}

/// Tells whether the extension `name` is among the enabled ones.
pub fn is_extension_enabled(enabled: &Vec<String>, name: &str) -> (r: bool)
    ensures
        r == extension_enabled(enabled@, name@),
{
    let mut i: usize = 0;
    while i < enabled.len()
        invariant
            i <= enabled@.len(),
            forall|k: int| 0 <= k < i ==> (#[trigger] enabled@[k])@ != name@,
        decreases enabled@.len() - i,
    {
        if same_text(enabled[i].as_str(), name) {
            return true;
        }
        i = i + 1;
    }
    false
}

/// Tells whether an entry must be looked up, given the enabled extensions.
pub fn is_entry_wanted(entry: &EntryPoint, enabled: &Vec<String>) -> (r: bool)
    ensures
        r == entry_wanted(entry@, enabled@),
{
    match entry.extension {
        None => true,
        Some(extension) => is_extension_enabled(enabled, extension),
    }
}

/// The message that reports `entry` as unresolved.
pub fn unresolved_entry_message(entry: &EntryPoint) -> (message: String)
    ensures
        message@ == unresolved_message(entry@),
{
    let owned = entry.extension.is_some();
    let prefix = match entry.tier {
        EntryTier::Exported => "Couldn't load exported Vulkan function: ",
        EntryTier::Global => "Couldn't load global vulkan function : ",
        EntryTier::Instance => if owned {
            "Couldn't load instance level extension vulkan function: "
        } else {
            "Couldn't load instance level vulkan function: "
        },
        EntryTier::Device => if owned {
            "Couldn't load device level extension vulkan function: "
        } else {
            "Couldn't load device level vulkan function: "
        },
    };
    String::from_str(prefix).concat(entry.name)
}

/// Decides whether a tier is resolved.
///
/// `addresses[i]` is the address obtained for row `i` of `table`, zero when
/// the lookup came back empty or was not made. The result is the index of
/// the first row that had to resolve and did not, or else the wanted rows
/// with their addresses.
pub fn resolve_entries(
    table: &Vec<EntryPoint>,
    enabled: &Vec<String>,
    addresses: &Vec<u64>,
) -> (outcome: Result<Vec<ResolvedEntry>, usize>)
    ensures
        outcome is Ok <==> all_resolved(rows_of(table@), enabled@, addresses@),
        outcome matches Err(i) ==> is_first_unresolved(
            rows_of(table@),
            enabled@,
            addresses@,
            i as int,
        ),
        outcome matches Ok(entries) ==> resolved_view(entries@) == resolved_prefix(
            rows_of(table@),
            enabled@,
            addresses@,
            table@.len() as int,
        ),
{
    let mut entries: Vec<ResolvedEntry> = Vec::new();
    let mut i: usize = 0;
    while i < table.len()
        invariant
            i <= table@.len(),
            forall|j: int|
                0 <= j < i ==> !entry_unresolved(rows_of(table@), enabled@, addresses@, j),
            resolved_view(entries@) == resolved_prefix(
                rows_of(table@),
                enabled@,
                addresses@,
                i as int,
            ),
        decreases table@.len() - i,
    {
        let entry = &table[i];
        if is_entry_wanted(entry, enabled) {
            let address: u64 = if i < addresses.len() {
                addresses[i]
            } else {
                0
            };
            if address == 0 {
                proof {
                    assert(entry_unresolved(rows_of(table@), enabled@, addresses@, i as int));
                }
                return Err(i);
            }
            let ghost before = entries@;
            entries.push(ResolvedEntry { name: entry.name, address });
            proof {
                assert(resolved_view(entries@) =~= resolved_view(before).push(
                    (entry.name@, address),
                ));
            }
        }
        i = i + 1;
    }
    Ok(entries)
}

/// Address that a list of resolved entries holds for a symbol.
pub fn find_address(entries: &Vec<ResolvedEntry>, name: &str) -> (address: Option<u64>)
    ensures
        address == address_of(resolved_view(entries@), name@),
{
    let mut i: usize = 0;
    proof {
        assert(resolved_view(entries@).skip(0) =~= resolved_view(entries@));
    }
    while i < entries.len()
        invariant
            i <= entries@.len(),
            address_of(resolved_view(entries@), name@) == address_of(
                resolved_view(entries@).skip(i as int),
                name@,
            ),
        decreases entries@.len() - i,
    {
        let ghost rest = resolved_view(entries@).skip(i as int);
        proof {
            assert(rest[0] == (entries@[i as int].name@, entries@[i as int].address));
            assert(rest.drop_first() =~= resolved_view(entries@).skip(i as int + 1));
        }
        if same_text(entries[i].name, name) {
            return Some(entries[i].address);
        }
        i = i + 1;
    }
    proof {
        assert(resolved_view(entries@).skip(i as int).len() == 0);
    }
    None
}

/// Every resolved entry of a tier that resolved has a non-null address.
pub proof fn lemma_resolved_addresses_non_null(
    table: Seq<EntryRow>,
    enabled: Seq<String>,
    addresses: Seq<u64>,
    n: int,
)
    requires
        0 <= n <= table.len(),
        all_resolved(table, enabled, addresses),
    ensures
        forall|k: int|
            0 <= k < resolved_prefix(table, enabled, addresses, n).len()
                ==> (#[trigger] resolved_prefix(table, enabled, addresses, n)[k]).1 != 0,
    decreases n,
{
    if n > 0 {
        lemma_resolved_addresses_non_null(table, enabled, addresses, n - 1);
        let shorter = resolved_prefix(table, enabled, addresses, n - 1);
        let whole = resolved_prefix(table, enabled, addresses, n);
        assert(!entry_unresolved(table, enabled, addresses, n - 1));
        assert forall|k: int| 0 <= k < whole.len() implies (#[trigger] whole[k]).1 != 0 by {
            if k < shorter.len() {
                assert(whole[k] == shorter[k]);
            }
        }
    }
}

/// Looking a name up in a list with one more entry: the address found
/// before, or else that of the new entry when it has the name.
pub proof fn lemma_address_of_push(
    entries: Seq<(Seq<char>, u64)>,
    last: (Seq<char>, u64),
    name: Seq<char>,
)
    ensures
        address_of(entries.push(last), name) == match address_of(entries, name) {
            Some(a) => Some(a),
            None => if last.0 == name {
                Some(last.1)
            } else {
                None
            },
        },
    decreases entries.len(),
{
    let longer = entries.push(last);
    if entries.len() == 0 {
        assert(longer.drop_first() =~= entries);
    } else {
        assert(longer[0] == entries[0]);
        assert(longer.drop_first() =~= entries.drop_first().push(last));
        if entries[0].0 != name {
            lemma_address_of_push(entries.drop_first(), last, name);
        }
    }
}

/// An address that is found for a name is the address of an entry of that
/// name.
pub proof fn lemma_address_of_is_entry(entries: Seq<(Seq<char>, u64)>, name: Seq<char>)
    ensures
        address_of(entries, name) matches Some(a) ==> exists|k: int|
            0 <= k < entries.len() && #[trigger] entries[k] == (name, a),
    decreases entries.len(),
{
    if entries.len() > 0 {
        if entries[0].0 == name {
            assert(entries[0] == (name, entries[0].1));
        } else {
            lemma_address_of_is_entry(entries.drop_first(), name);
            match address_of(entries.drop_first(), name) {
                Some(a) => {
                    let k = choose|k: int|
                        0 <= k < entries.drop_first().len() && #[trigger] entries.drop_first()[k]
                            == (name, a);
                    assert(entries[k + 1] == (name, a));
                },
                None => {},
            }
        }
    }
}

/// Once a tier has resolved, every wanted symbol of it is found among the
/// resolved entries, with an address that is not null.
pub proof fn lemma_resolved_entry_found(
    table: Seq<EntryRow>,
    enabled: Seq<String>,
    addresses: Seq<u64>,
    n: int,
    i: int,
)
    requires
        all_resolved(table, enabled, addresses),
        0 <= i < n <= table.len(),
        entry_wanted(table[i], enabled),
    ensures
        address_of(resolved_prefix(table, enabled, addresses, n), table[i].name) matches Some(a)
            && a != 0,
    decreases n,
{
    let shorter = resolved_prefix(table, enabled, addresses, n - 1);
    assert(!entry_unresolved(table, enabled, addresses, n - 1));
    if i < n - 1 {
        lemma_resolved_entry_found(table, enabled, addresses, n - 1, i);
    }
    if entry_wanted(table[n - 1], enabled) {
        lemma_address_of_push(
            shorter,
            (table[n - 1].name, address_at(addresses, n - 1)),
            table[i].name,
        );
        lemma_address_of_is_entry(shorter, table[i].name);
        lemma_resolved_addresses_non_null(table, enabled, addresses, n - 1);
        match address_of(shorter, table[i].name) {
            Some(a) => {
                let k = choose|k: int|
                    0 <= k < shorter.len() && #[trigger] shorter[k] == (table[i].name, a);
                assert(shorter[k].1 != 0);
            },
            None => {},
        }
    }
}

} // verus!
