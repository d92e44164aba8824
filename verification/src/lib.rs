pub use element::Element;
mod element;

pub use die::Die;
mod die;

pub use weapon_type::WeaponType;
mod weapon_type;

pub use faction::Faction;
mod faction;

pub use cost::{CardCost, DiceCost};
mod cost;

pub use card_trait::{PlayingCard, Trait};
mod card_trait;

pub use character::CharacterCard;
mod character;

pub use equip::{ArtifactCard, EquipmentCard, TalentCard, WeaponCard};
mod equip;

pub use event::{ElementalResonanceCard, EventCard, FoodCard, NormalEventCard};
mod event;

pub use support::{CompanionCard, ItemCard, LocationCard, SupportCard};
mod support;

pub use action::ActionCard;
mod action;

pub use cards::Card;
mod cards;

pub mod order;
mod sort;

pub use deck::{Deck, DeckError, DeckView, IterAction};
mod deck;

pub mod deck_laws;

pub mod codes;

pub use deck_url::{deck_from_url, UrlDeckError, UrlDeckErrorView};
mod deck_url;
