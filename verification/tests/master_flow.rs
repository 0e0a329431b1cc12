use posterbot_constructor::callbacks::MasterCallback;
use posterbot_constructor::commands::MasterCommand;
use posterbot_constructor::locales::{L10n, Locale, Translations};
use posterbot_constructor::master_flow::{
    ban_toggle_notice, buy_pro, callback_allowed, notice, owner_command_reply, plan_changed_notice,
    pro_invoice, save_failed_reply, stored_locale, token_claim, token_from, unbind_notice,
    FlowState, Notice, TokenClaim,
};

#[test]
fn owner_buttons_are_for_the_owner() {
    assert!(callback_allowed(MasterCallback::Client(5), 1, 1));
    assert!(!callback_allowed(MasterCallback::Client(5), 2, 1));
    assert!(callback_allowed(MasterCallback::BuyPro, 2, 1));
    assert!(callback_allowed(MasterCallback::Unknown, 2, 1));
}

#[test]
fn buying_the_plan_twice_is_refused() {
    assert_eq!(buy_pro(true).unwrap_err(), "✅ У вас уже активна Pro-подписка!");
    let inv = buy_pro(false).unwrap();
    assert_eq!(inv.payload, "pro_sub_1m");
    assert_eq!(inv.currency, "XTR");
    assert_eq!(inv.amount, 100);
    assert_eq!(inv.title, pro_invoice().title);
    assert_eq!(inv.price_label, "Pro Plan");
}

#[test]
fn owner_notices() {
    let mut tr = Translations::new();
    tr.insert(Locale::Ru, "client_banned_msg", "Забанен");
    let l = L10n::new(tr);
    assert_eq!(ban_toggle_notice(&l, Locale::Ru, false), "Забанен");
    assert_eq!(ban_toggle_notice(&l, Locale::Ru, true), "client_unbanned_msg");
    assert_eq!(plan_changed_notice(&l, Locale::En, "pro"), "plan_changed_pro_msg");
    assert_eq!(plan_changed_notice(&l, Locale::En, "free"), "plan_changed_free_msg");
    assert_eq!(unbind_notice(true), "✅ Бот отвязан и остановлен.");
    assert_eq!(unbind_notice(false), "❌ Ошибка: это не ваш бот.");
}

#[test]
fn owner_commands_are_answered() {
    assert_eq!(
        owner_command_reply(&MasterCommand::SetPlan(5, "pro".into())),
        Some("✅ План для 5 изменен на pro.".to_string())
    );
    assert_eq!(
        owner_command_reply(&MasterCommand::SetPlanUsage),
        Some("Использование: /setplan <user_id> <free|pro>".to_string())
    );
    assert_eq!(
        owner_command_reply(&MasterCommand::BanClient(9)),
        Some("🚫 Клиент 9 забанен. Боты остановлены.".to_string())
    );
    assert_eq!(owner_command_reply(&MasterCommand::Stats), None);
    assert_eq!(owner_command_reply(&MasterCommand::BanClientMissing), None);
}

#[test]
fn tokens_are_read_only_when_asked_for() {
    assert_eq!(token_from(Some(FlowState::AwaitingToken), "  123:abc \n"), Some("123:abc".to_string()));
    assert_eq!(token_from(Some(FlowState::AwaitingBotCheck), "123:abc"), None);
    assert_eq!(token_from(None, "123:abc"), None);
}

#[test]
fn a_token_belongs_to_one_client() {
    assert_eq!(token_claim(None, 5), TokenClaim::New);
    assert_eq!(token_claim(Some((3, Some(5))), 5), TokenClaim::Renew(3));
    assert_eq!(token_claim(Some((3, Some(6))), 5), TokenClaim::TakenByOther);
    assert_eq!(token_claim(Some((3, None)), 5), TokenClaim::TakenByOther);
}

#[test]
fn stored_languages_fall_back() {
    assert_eq!(stored_locale(Some("RU"), Locale::En), Locale::Ru);
    assert_eq!(stored_locale(Some("xx"), Locale::Ru), Locale::Ru);
    assert_eq!(stored_locale(None, Locale::En), Locale::En);
}

#[test]
fn fixed_answers() {
    assert_eq!(notice(Notice::TokenPrompt), "Отправьте токен вашего бота, полученный от @BotFather.");
    assert_eq!(notice(Notice::InvalidToken), "❌ Неверный токен. Попробуйте снова.");
    assert!(notice(Notice::ProPurchased).starts_with("✅ Вы успешно приобрели Pro-подписку на 30 дней!"));
    assert_eq!(save_failed_reply("boom"), "❌ Ошибка сохранения: boom");
}
