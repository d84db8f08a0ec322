//! The registry: one instance of every dream of the catalog, built once,
//! and the rule by which dreams in development are hidden.

use crate::app_settings::{SettingsRaw, SettingsView};
use crate::dreams::{
    build_dream_by_id, build_dreams_id_list, catalog_ids, catalog_in_development, catalog_index,
    catalog_names, find_dream, lemma_catalog_ids_differ, settings_after_store, stored_text,
    ADream,
};
use vstd::prelude::*;

verus! {

/// Whether the dream at place `index` of the catalog is offered: a dream
/// in development only where such dreams are allowed.
pub open spec fn is_offered(index: int, allow_dev_dreams: bool) -> bool {
    allow_dev_dreams || !catalog_in_development(index)
}

/// The places of the dreams that are offered, in the order of the catalog.
pub open spec fn offered_places(allow_dev_dreams: bool) -> Seq<int> {
    if allow_dev_dreams {
        seq![0, 1, 2]
    } else {
        seq![0, 2]
    }
}

/// The settings after each of the dreams stored its state in turn, the
/// first dream first.
pub open spec fn settings_after_all_stored(settings: SettingsView, dreams: Seq<ADream>)
    -> SettingsView
    decreases dreams.len(),
{
    if dreams.len() == 0 {
        settings
    } else {
        settings_after_store(
            settings_after_all_stored(settings, dreams.drop_last()),
            dreams.last().id_text(),
            dreams.last().settings_text(),
        )
    }
}

/// Every dream of the catalog, each once and in the order of the catalog.
#[derive(Debug)]
pub struct DreamRegistry {
    zoo: Vec<ADream>,
}

impl View for DreamRegistry {
    type V = Seq<ADream>;

    closed spec fn view(&self) -> Seq<ADream> {
        self.zoo@
    }
}

impl DreamRegistry {
    /// The registry holds the dreams of the catalog, each at its place.
    pub open spec fn wf(&self) -> bool {
        &&& self@.len() == 3
        &&& forall|i: int| 0 <= i < 3 ==> (#[trigger] self@[i]).index() == i
    }

    /// Creates every dream of the catalog from what it stored in the
    /// settings.
    pub fn build(settings: &SettingsRaw) -> (registry: DreamRegistry)
        requires
            settings.wf(),
        ensures
            registry.wf(),
            forall|i: int|
                0 <= i < 3 ==> (#[trigger] registry@[i]).settings_text() == stored_text(
                    settings@,
                    catalog_ids()[i],
                ),
            registry@[0].scheme() == Some(settings@.color_scheme),
    {
        proof {
            lemma_catalog_ids_differ();
        }
        let ids = build_dreams_id_list();
        let mut zoo: Vec<ADream> = Vec::new();
        let mut i: usize = 0;
        while i < 3
            invariant
                i <= 3,
                settings.wf(),
                zoo.len() == i,
                ids@.len() == 3,
                forall|k: int| 0 <= k < 3 ==> (#[trigger] ids@[k]).0@ == catalog_ids()[k],
                forall|k: int| 0 <= k < 3 ==> catalog_index(#[trigger] catalog_ids()[k]) == Some(k),
                forall|k: int|
                    0 <= k < i ==> (#[trigger] zoo@[k]).index() == k && zoo@[k].settings_text()
                        == stored_text(settings@, catalog_ids()[k]),
                i > 0 ==> zoo@[0].scheme() == Some(settings@.color_scheme),
            decreases 3 - i,
        {
            zoo.push(build_dream_by_id(ids[i].0, settings));
            i += 1;
        }
        DreamRegistry { zoo }
    }

    /// The identifier and the name of every dream that is offered, in the
    /// order of the catalog.
    pub fn offered(&self, allow_dev_dreams: bool) -> (list: Vec<(&'static str, &'static str)>)
        requires
            self.wf(),
        ensures
            list@.len() == offered_places(allow_dev_dreams).len(),
            forall|k: int|
                0 <= k < list@.len() ==> (#[trigger] list@[k]).0@
                    == catalog_ids()[offered_places(allow_dev_dreams)[k]] && list@[k].1@
                    == catalog_names()[offered_places(allow_dev_dreams)[k]],
    {
        let mut list: Vec<(&'static str, &'static str)> = Vec::new();
        let first = &self.zoo[0];
        list.push((first.id(), first.name()));
        if allow_dev_dreams || !self.zoo[1].in_development() {
            let second = &self.zoo[1];
            list.push((second.id(), second.name()));
        }
        let third = &self.zoo[2];
        list.push((third.id(), third.name()));
        list
    }

    /// The dream `id`, if it is offered. The id must be one of the
    /// catalog: the catalog is closed.
    pub fn fetch(&self, id: &str, allow_dev_dreams: bool) -> (dream: Option<&ADream>)
        requires
            self.wf(),
            catalog_index(id@) is Some,
        ensures
            match dream {
                Some(d) => is_offered(catalog_index(id@)->Some_0, allow_dev_dreams) && *d
                    == self@[catalog_index(id@)->Some_0] && d.id_text() == id@,
                None => !is_offered(catalog_index(id@)->Some_0, allow_dev_dreams),
            },
    {
        proof {
            lemma_catalog_ids_differ();
        }
        match find_dream(id) {
            Some(place) => {
                let dream = &self.zoo[place];
                if allow_dev_dreams || !dream.in_development() {
                    Some(dream)
                } else {
                    None
                }
            },
            None => None,
        }
    }

    /// Replaces the editable state of the dream `id`, as its
    /// configuration panel does.
    pub fn configure(&mut self, id: &str, text: String)
        requires
            old(self).wf(),
            catalog_index(id@) is Some,
        ensures
            final(self).wf(),
            final(self)@[catalog_index(id@)->Some_0].settings_text() == text@,
            final(self)@[catalog_index(id@)->Some_0].scheme() == old(
                self,
            )@[catalog_index(id@)->Some_0].scheme(),
            forall|i: int|
                0 <= i < 3 && i != catalog_index(id@)->Some_0 ==> final(self)@[i] == old(self)@[i],
    {
        match find_dream(id) {
            Some(place) => {
                let mut dream = self.zoo.remove(place);
                dream.configure(text);
                self.zoo.insert(place, dream);
            },
            None => {},
        }
    }

    /// Lets every dream store its state in the settings.
    pub fn store_all(&self, settings: &mut SettingsRaw)
        requires
            self.wf(),
            old(settings).wf(),
        ensures
            final(settings).wf(),
            final(settings)@ == settings_after_all_stored(old(settings)@, self@),
    {
        let ghost start = settings@;
        let mut i: usize = 0;
        while i < self.zoo.len()
            invariant
                i <= self.zoo.len(),
                settings.wf(),
                settings@ == settings_after_all_stored(start, self@.take(i as int)),
            decreases self.zoo.len() - i,
        {
            proof {
                assert(self@.take(i + 1).drop_last() =~= self@.take(i as int));
            }
            self.zoo[i].store(settings);
            i += 1;
        }
        assert(self@.take(i as int) =~= self@);
    }
}

} // verus!
